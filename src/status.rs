use vstd::prelude::*;

verus! {

/// The lifecycle state of a post. `Deleted` is the soft-delete marker: a
/// post in that state is hidden from every read.
#[derive(Debug, Clone, Copy, PartialEq, Eq, Structural)]
pub enum PostStatus {
    Draft,
    Published,
    Deleted,
}

/// What `str::trim` returns for a string.
pub uninterp spec fn trim_of(s: Seq<char>) -> Seq<char>;

/// What `str::to_uppercase` returns for a string.
pub uninterp spec fn upper_of(s: Seq<char>) -> Seq<char>;

/// The normal form in which a requested status is compared.
pub open spec fn normalized(s: Seq<char>) -> Seq<char> {
    upper_of(trim_of(s))
}

/// The status that a normalized request names, where it names one that a
/// client may set.
pub open spec fn requested_status(n: Seq<char>) -> Option<PostStatus> {
    if n == "PUBLISHED"@ {
        Some(PostStatus::Published)
    } else if n == "DRAFT"@ {
        Some(PostStatus::Draft)
    } else {
        None
    }
}

/// Relies on `str::trim`: leading and trailing white space removed, as a
/// function of the characters alone.
#[verifier::external_body]
fn trim_text(s: &str) -> (r: &str)
    ensures
        r@ == trim_of(s@),
{
    s.trim()
}

/// Relies on `str::to_uppercase`: the upper-case mapping of every
/// character, as a function of the characters alone.
#[verifier::external_body]
fn upper_text(s: &str) -> (r: String)
    ensures
        r@ == upper_of(s@),
{
    s.to_uppercase()
}

impl PostStatus {
    /// The text stored in the `status` column.
    pub fn as_str(&self) -> (r: &'static str)
        ensures
            r@ == self.text(),
    {
        proof {
            reveal_strlit("DRAFT");
            reveal_strlit("PUBLISHED");
            reveal_strlit("DELETED");
        }
        match self {
            PostStatus::Draft => "DRAFT",
            PostStatus::Published => "PUBLISHED",
            PostStatus::Deleted => "DELETED",
        }
    }

    pub open spec fn text(&self) -> Seq<char> {
        match self {
            PostStatus::Draft => "DRAFT"@,
            PostStatus::Published => "PUBLISHED"@,
            PostStatus::Deleted => "DELETED"@,
        }
    }

    /// Reads an already normalized status; only `PUBLISHED` and `DRAFT` are
    /// accepted, `DELETED` being reachable through deletion alone.
    pub fn from_normalized(n: &str) -> (r: Option<PostStatus>)
        ensures
            r == requested_status(n@),
    {
        let owned: String = n.to_owned();
        let published: String = "PUBLISHED".to_owned();
        let draft: String = "DRAFT".to_owned();
        if owned == published {
            Some(PostStatus::Published)
        } else if owned == draft {
            Some(PostStatus::Draft)
        } else {
            None
        }
    }

    /// Validates a status as a client wrote it: trimmed and upper-cased, it
    /// must read `PUBLISHED` or `DRAFT`.
    pub fn parse(raw: &str) -> (r: Option<PostStatus>)
        ensures
            r == requested_status(normalized(raw@)),
    {
        let trimmed = trim_text(raw);
        let upper = upper_text(trimmed);
        PostStatus::from_normalized(upper.as_str())
    }
}

} // verus!
