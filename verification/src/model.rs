//! Data model: persisted records and the staged form they take while a write
//! is pending.
use vstd::prelude::*;

verus! {

/// State of one field of a pending write: explicitly staged by the caller,
/// carried over unchanged from the loaded row, or absent.
#[derive(Debug, Clone, PartialEq, Eq)]
pub enum Staged<T> {
    /// The caller explicitly set this field for the current write.
    Changed(T),
    /// The field holds the value loaded from storage, untouched by the caller.
    Unchanged(T),
    /// No value is available for this field.
    NotSet,
}

/// Mathematical form of a `Staged` field, over the field's own view.
pub enum StagedSpec<T> {
    Changed(T),
    Unchanged(T),
    NotSet,
}

impl<T: View> View for Staged<T> {
    type V = StagedSpec<T::V>;

    open spec fn view(&self) -> StagedSpec<T::V> {
        match self {
            Staged::Changed(v) => StagedSpec::Changed(v@),
            Staged::Unchanged(v) => StagedSpec::Unchanged(v@),
            Staged::NotSet => StagedSpec::NotSet,
        }
    }
}

impl<T> StagedSpec<T> {
    /// The value a field holds, where one is present.
    pub open spec fn value(self) -> T
        recommends !(self is NotSet),
    {
        match self {
            StagedSpec::Changed(v) => v,
            StagedSpec::Unchanged(v) => v,
            StagedSpec::NotSet => arbitrary(),
        }
    }
}

impl<T: View> Staged<T> {
    /// True exactly when the caller explicitly staged this field.
    pub fn is_changed(&self) -> (r: bool)
        ensures
            r == (self@ is Changed),
    {
        match self {
            Staged::Changed(_) => true,
            _ => false,
        }
    }

    /// True exactly when the field holds no value.
    pub fn is_not_set(&self) -> (r: bool)
        ensures
            r == (self@ is NotSet),
    {
        match self {
            Staged::NotSet => true,
            _ => false,
        }
    }
}

/// A persisted user row, as the read side sees it.
#[derive(Debug, Clone, PartialEq, Eq)]
pub struct User {
    pub name: String,
    pub email: String,
}

/// A persisted credential row: a record carrying a secret token used for
/// authentication, with the two bookkeeping timestamps (microseconds since
/// the epoch).
#[derive(Debug, Clone, PartialEq, Eq)]
pub struct UserAuth {
    pub id: String,
    pub email: String,
    pub secret_token: String,
    pub created_at: i64,
    pub updated_at: i64,
    pub email_verified_at: Option<i64>,
}

/// The staged field set of a credential row while a write is pending.
#[derive(Debug, Clone, PartialEq, Eq)]
pub struct StagedUserAuth {
    pub id: Staged<String>,
    pub email: Staged<String>,
    pub secret_token: Staged<String>,
    pub created_at: Staged<i64>,
    pub updated_at: Staged<i64>,
    pub email_verified_at: Staged<Option<i64>>,
}

/// Mathematical form of a staged credential row.
#[verifier::ext_equal]
pub struct StagedUserAuthSpec {
    pub id: StagedSpec<Seq<char>>,
    pub email: StagedSpec<Seq<char>>,
    pub secret_token: StagedSpec<Seq<char>>,
    pub created_at: StagedSpec<i64>,
    pub updated_at: StagedSpec<i64>,
    pub email_verified_at: StagedSpec<Option<i64>>,
}

impl View for StagedUserAuth {
    type V = StagedUserAuthSpec;

    open spec fn view(&self) -> StagedUserAuthSpec {
        StagedUserAuthSpec {
            id: self.id@,
            email: self.email@,
            secret_token: self.secret_token@,
            created_at: self.created_at@,
            updated_at: self.updated_at@,
            email_verified_at: self.email_verified_at@,
        }
    }
}

} // verus!
