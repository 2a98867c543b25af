//! Account records: lookup, credential checking, creation, update and
//! deletion.  Usernames are unique and case-sensitive; only the salted
//! one-way hash of a password is ever stored.

use vstd::prelude::*;

use crate::errors::{AuthenticationClientError, AuthenticationServiceError};
use crate::models::{AccountModel, CreateAccountRequestDTO};
use crate::password::{argon2_encoded, password_matches, PasswordService};
use crate::repository::{
    account_by_username, account_eqv, account_of, account_index, has_account_id, has_username,
    AccountRepository,
};

verus! {

/// Owns the account rows.
pub struct AccountService {
    repository: AccountRepository,
}

impl AccountService {
    /// The stored account rows.
    pub closed spec fn rows(&self) -> Seq<AccountModel> {
        self.repository.rows()
    }

    pub closed spec fn wf(&self) -> bool {
        self.repository.wf()
    }

    pub fn new() -> (r: Self)
        ensures
            r.wf(),
            r.rows().len() == 0,
    {
        AccountService { repository: AccountRepository::new() }
    }

    /// Copies of all account rows.
    pub fn get_all_accounts(&self) -> (r: Result<Vec<AccountModel>, AuthenticationServiceError>)
        requires
            self.wf(),
        ensures
            r matches Ok(v) && v@.len() == self.rows().len(),
            r matches Ok(v) ==> forall|i: int|
                0 <= i < v@.len() ==> account_eqv(#[trigger] v@[i], self.rows()[i]),
    {
        Ok(self.repository.get_all())
    }

    /// The account with the given identifier; absence is `AccountNotFound`.
    pub fn get_account_by_id(&self, account_id: u64) -> (r: Result<
        AccountModel,
        AuthenticationServiceError,
    >)
        requires
            self.wf(),
        ensures
            match r {
                Ok(a) => has_account_id(self.rows(), account_id) && account_eqv(
                    a,
                    account_of(self.rows(), account_id),
                ),
                Err(e) => !has_account_id(self.rows(), account_id) && (e matches
                    AuthenticationServiceError::ClientError(c) && c is AccountNotFound),
            },
    {
        match self.repository.get_by_id(account_id) {
            Some(a) => Ok(a),
            None => Err(
                AuthenticationServiceError::ClientError(
                    AuthenticationClientError::AccountNotFound,
                ),
            ),
        }
    }

    /// The account with the given username; absence is `AccountNotFound`.
    pub fn get_account_by_username(&self, username: &str) -> (r: Result<
        AccountModel,
        AuthenticationServiceError,
    >)
        requires
            self.wf(),
        ensures
            match r {
                Ok(a) => has_username(self.rows(), username@) && account_eqv(
                    a,
                    account_by_username(self.rows(), username@),
                ),
                Err(e) => !has_username(self.rows(), username@) && (e matches
                    AuthenticationServiceError::ClientError(c) && c is AccountNotFound),
            },
    {
        match self.repository.get_by_username(username) {
            Some(a) => Ok(a),
            None => Err(
                AuthenticationServiceError::ClientError(
                    AuthenticationClientError::AccountNotFound,
                ),
            ),
        }
    }

    /// The account with the given username, provided the password matches
    /// its stored hash.  An unknown username is `AccountNotFound`, a
    /// mismatching password `InvalidCredentials`, and a corrupt stored
    /// encoding a server fault; on a stored encoding that the hasher itself
    /// produced, a match or mismatch verdict is always reached.
    pub fn get_account_by_username_and_password(
        &self,
        password_service: &PasswordService,
        username: &str,
        password: &str,
    ) -> (r: Result<AccountModel, AuthenticationServiceError>)
        requires
            self.wf(),
        ensures
            !has_username(self.rows(), username@) ==> (r matches Err(
                AuthenticationServiceError::ClientError(
                    AuthenticationClientError::AccountNotFound,
                ),
            )),
            match r {
                Ok(a) => {
                    &&& has_username(self.rows(), username@)
                    &&& account_eqv(a, account_by_username(self.rows(), username@))
                    &&& password_matches(
                        account_by_username(self.rows(), username@).password@,
                        password@,
                    )
                },
                Err(e) => match e {
                    AuthenticationServiceError::ClientError(c) => (c is AccountNotFound
                        && !has_username(self.rows(), username@)) || (c is InvalidCredentials
                        && has_username(self.rows(), username@) && !password_matches(
                        account_by_username(self.rows(), username@).password@,
                        password@,
                    )),
                    AuthenticationServiceError::ServerError(_) => true,
                },
            },
            has_username(self.rows(), username@) && argon2_encoded(
                account_by_username(self.rows(), username@).password@,
            ) && password@.len() < 0x4000_0000 ==> (if password_matches(
                account_by_username(self.rows(), username@).password@,
                password@,
            ) {
                r is Ok
            } else {
                r matches Err(
                    AuthenticationServiceError::ClientError(
                        AuthenticationClientError::InvalidCredentials,
                    ),
                )
            }),
    {
        let account = match self.repository.get_by_username(username) {
            Some(a) => a,
            None => {
                return Err(
                    AuthenticationServiceError::ClientError(
                        AuthenticationClientError::AccountNotFound,
                    ),
                );
            },
        };
        let is_password_valid = match password_service.verify_password(
            account.password.as_str(),
            password,
        ) {
            Ok(b) => b,
            Err(e) => {
                return Err(e);
            },
        };
        if !is_password_valid {
            return Err(
                AuthenticationServiceError::ClientError(
                    AuthenticationClientError::InvalidCredentials,
                ),
            );
        }
        Ok(account)
    }

    /// Whether an account with the given username exists.
    pub fn exists_username(&self, username: &str) -> (r: Result<bool, AuthenticationServiceError>)
        requires
            self.wf(),
        ensures
            r matches Ok(b) && b == has_username(self.rows(), username@),
    {
        match self.repository.get_by_username(username) {
            Some(_) => Ok(true),
            None => Ok(false),
        }
    }

    /// Creates an account: a taken username is `AccountAlreadyExists` (and
    /// a storage-level uniqueness violation would surface the same way),
    /// otherwise the password is hashed and the row persisted under a fresh
    /// identifier.  On any failure the rows are unchanged.
    pub fn create_account(
        &mut self,
        password_service: &PasswordService,
        create_account: CreateAccountRequestDTO,
        now: u64,
    ) -> (r: Result<AccountModel, AuthenticationServiceError>)
        requires
            old(self).wf(),
        ensures
            final(self).wf(),
            has_username(old(self).rows(), create_account.username@) <==> (r matches Err(
                AuthenticationServiceError::ClientError(
                    AuthenticationClientError::AccountAlreadyExists,
                ),
            )),
            match r {
                Ok(a) => {
                    &&& final(self).rows().len() == old(self).rows().len() + 1
                    &&& final(self).rows().drop_last() == old(self).rows()
                    &&& account_eqv(final(self).rows().last(), a)
                    &&& a.username@ == create_account.username@
                    &&& argon2_encoded(a.password@)
                    &&& password_matches(a.password@, create_account.password@)
                    &&& a.created_at == now
                    &&& a.updated_at == now
                    &&& !has_account_id(old(self).rows(), a.id)
                },
                Err(e) => final(self).rows() == old(self).rows() && (e matches
                    AuthenticationServiceError::ClientError(c) ==> c is AccountAlreadyExists),
            },
    {
        match self.repository.get_by_username(create_account.username.as_str()) {
            Some(_) => {
                return Err(
                    AuthenticationServiceError::ClientError(
                        AuthenticationClientError::AccountAlreadyExists,
                    ),
                );
            },
            None => {},
        };
        let hashed_password = match password_service.hash_password(
            create_account.password.as_str(),
        ) {
            Ok(h) => h,
            Err(e) => {
                return Err(e);
            },
        };
        match self.repository.insert_account(create_account.username, hashed_password, now) {
            Ok(a) => Ok(a),
            Err(_) => Err(
                AuthenticationServiceError::ServerError(
                    String::from_str("failed to persist the account row"),
                ),
            ),
        }
    }

    /// Replaces the password of the account with a fresh hash of
    /// `new_password`; updating an absent account changes nothing and is
    /// not an error, mirroring an update that matched no row.
    pub fn update_account_password(
        &mut self,
        password_service: &PasswordService,
        account_id: u64,
        new_password: &str,
        now: u64,
    ) -> (r: Result<(), AuthenticationServiceError>)
        requires
            old(self).wf(),
        ensures
            final(self).wf(),
            match r {
                Ok(_) => {
                    &&& final(self).rows().len() == old(self).rows().len()
                    &&& forall|i: int|
                        0 <= i < old(self).rows().len() && old(self).rows()[i].id != account_id
                            ==> final(self).rows()[i] == old(self).rows()[i]
                    &&& forall|i: int|
                        0 <= i < old(self).rows().len() && old(self).rows()[i].id == account_id
                            ==> {
                            let n = #[trigger] final(self).rows()[i];
                            let o = old(self).rows()[i];
                            &&& n.id == o.id
                            &&& n.username@ == o.username@
                            &&& argon2_encoded(n.password@)
                            &&& password_matches(n.password@, new_password@)
                            &&& n.created_at == o.created_at
                            &&& n.updated_at == now
                        }
                },
                Err(e) => e is ServerError && final(self).rows() == old(self).rows(),
            },
    {
        let hashed_password = match password_service.hash_password(new_password) {
            Ok(h) => h,
            Err(e) => {
                return Err(e);
            },
        };
        let _matched = self.repository.update_password(account_id, hashed_password.as_str(), now);
        Ok(())
    }

    /// Renames the account; a taken username is `AccountAlreadyExists`.
    /// Renaming an absent account changes nothing and is not an error.
    pub fn update_account_username(&mut self, account_id: u64, new_username: &str, now: u64) -> (r:
        Result<(), AuthenticationServiceError>)
        requires
            old(self).wf(),
        ensures
            final(self).wf(),
            has_username(old(self).rows(), new_username@) <==> (r matches Err(
                AuthenticationServiceError::ClientError(
                    AuthenticationClientError::AccountAlreadyExists,
                ),
            )),
            r matches Err(_) ==> final(self).rows() == old(self).rows(),
            match r {
                Ok(_) => {
                    &&& final(self).rows().len() == old(self).rows().len()
                    &&& forall|i: int|
                        0 <= i < old(self).rows().len() && old(self).rows()[i].id != account_id
                            ==> final(self).rows()[i] == old(self).rows()[i]
                    &&& forall|i: int|
                        0 <= i < old(self).rows().len() && old(self).rows()[i].id == account_id
                            ==> {
                            let n = #[trigger] final(self).rows()[i];
                            let o = old(self).rows()[i];
                            &&& n.id == o.id
                            &&& n.username@ == new_username@
                            &&& n.password@ == o.password@
                            &&& n.created_at == o.created_at
                            &&& n.updated_at == now
                        }
                },
                Err(e) => e matches AuthenticationServiceError::ClientError(c) && c
                    is AccountAlreadyExists,
            },
    {
        match self.repository.get_by_username(new_username) {
            Some(_) => {
                return Err(
                    AuthenticationServiceError::ClientError(
                        AuthenticationClientError::AccountAlreadyExists,
                    ),
                );
            },
            None => {},
        };
        let _matched = self.repository.update_username(account_id, new_username, now);
        Ok(())
    }

    /// Deletes the account record; deleting an absent account is not an
    /// error, so a retry after a partial failure is safe.
    pub fn delete_account(&mut self, account_id: u64) -> (r: Result<
        (),
        AuthenticationServiceError,
    >)
        requires
            old(self).wf(),
        ensures
            final(self).wf(),
            r is Ok,
            !has_account_id(final(self).rows(), account_id),
            has_account_id(old(self).rows(), account_id) ==> final(self).rows() == old(
                self,
            ).rows().remove(account_index(old(self).rows(), account_id)),
            !has_account_id(old(self).rows(), account_id) ==> final(self).rows() == old(
                self,
            ).rows(),
    {
        let _removed = self.repository.delete(account_id);
        Ok(())
    }
}

} // verus!
