use vstd::prelude::*;

verus! {

/// How prominently an article is listed; stored in the database as a small
/// integer code.
#[derive(PartialEq, Eq, Structural, Clone, Copy, Debug)]
pub enum ArticleType {
    Important,
    Favourite,
    Common,
}

impl ArticleType {
    /// The integer code under which a kind is stored.
    pub open spec fn spec_code(self) -> i32 {
        match self {
            ArticleType::Important => 0,
            ArticleType::Favourite => 1,
            ArticleType::Common => 2,
        }
    }

    /// Whether an integer is the stored code of some kind.
    pub open spec fn is_code(value: i32) -> bool {
        0 <= value <= 2
    }

    /// The kind stored under `value`, which must be one of the three codes.
    pub fn from_code(value: i32) -> (r: ArticleType)
        requires
            Self::is_code(value),
        ensures
            r.spec_code() == value,
    {
        if value == 0 {
            ArticleType::Important
        } else if value == 1 {
            ArticleType::Favourite
        } else {
            ArticleType::Common
        }
    }

    /// The kind stored under `value`, or `None` when `value` is no code.
    pub fn try_from_code(value: i32) -> (r: Option<ArticleType>)
        ensures
            r is Some <==> Self::is_code(value),
            r matches Some(t) ==> t.spec_code() == value,
    {
        if 0 <= value && value <= 2 {
            Some(Self::from_code(value))
        } else {
            None
        }
    }

    /// The integer code of this kind.
    pub fn code(self) -> (r: i32)
        ensures
            r == self.spec_code(),
            Self::is_code(r),
    {
        match self {
            ArticleType::Important => 0,
            ArticleType::Favourite => 1,
            ArticleType::Common => 2,
        }
    }
}

impl From<ArticleType> for i32 {
    fn from(t: ArticleType) -> (r: i32) {
        t.code()
    }
}

impl vstd::std_specs::convert::FromSpecImpl<ArticleType> for i32 {
    open spec fn obeys_from_spec() -> bool {
        true
    }

    open spec fn from_spec(t: ArticleType) -> i32 {
        t.spec_code()
    }
}

} // verus!
