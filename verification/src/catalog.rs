use vstd::prelude::*;

use crate::errors::ConvitError;

verus! {

/// The commit-type catalog. Each entry carries a canonical lower-case
/// keyword (the token written at the start of the header line) and a
/// human-readable description shown beside it while choosing.
#[derive(Debug, Clone, Copy, PartialEq, Eq, Structural)]
pub enum CommitType {
    Fix,
    Feat,
    Build,
    Chore,
    Ci,
    Docs,
    Style,
    Refactor,
    Revert,
    Perf,
    Test,
}

/// The footer catalog: the kinds of trailing `Key: value` lines a message
/// may carry. Each entry has a canonical keyword, written exactly as it
/// appears in the rendered footer line.
#[derive(Debug, Clone, Copy, PartialEq, Eq, Structural)]
pub enum CommitFooter {
    BreakingChange,
    SignedOffBy,
    AckedBy,
    HelpedBy,
    ReferenceTo,
    SeeAlso,
    Fixes,
    Cc,
    ReviewedBy,
}

/// Canonical keyword of a commit type, as a sequence of characters.
pub open spec fn spec_type_keyword(t: CommitType) -> Seq<char> {
    match t {
        CommitType::Fix => "fix"@,
        CommitType::Feat => "feat"@,
        CommitType::Build => "build"@,
        CommitType::Chore => "chore"@,
        CommitType::Ci => "ci"@,
        CommitType::Docs => "docs"@,
        CommitType::Style => "style"@,
        CommitType::Refactor => "refactor"@,
        CommitType::Revert => "revert"@,
        CommitType::Perf => "perf"@,
        CommitType::Test => "test"@,
    }
}

/// The inverse direction of the commit-type table: the entry whose
/// canonical keyword is exactly `s`, or `None` when no entry matches.
pub open spec fn spec_type_of_keyword(s: Seq<char>) -> Option<CommitType> {
    if s == "fix"@ {
        Some(CommitType::Fix)
    } else if s == "feat"@ {
        Some(CommitType::Feat)
    } else if s == "build"@ {
        Some(CommitType::Build)
    } else if s == "chore"@ {
        Some(CommitType::Chore)
    } else if s == "ci"@ {
        Some(CommitType::Ci)
    } else if s == "docs"@ {
        Some(CommitType::Docs)
    } else if s == "style"@ {
        Some(CommitType::Style)
    } else if s == "refactor"@ {
        Some(CommitType::Refactor)
    } else if s == "revert"@ {
        Some(CommitType::Revert)
    } else if s == "perf"@ {
        Some(CommitType::Perf)
    } else if s == "test"@ {
        Some(CommitType::Test)
    } else {
        None
    }
}

/// Human-readable description of a commit type, as shown in the chooser.
pub open spec fn spec_type_description(t: CommitType) -> Seq<char> {
    match t {
        CommitType::Fix => "Use when making changes to patch a bug."@,
        CommitType::Feat => "Use when adding a new feature."@,
        CommitType::Build => "Use when changing the build system or external dependencies."@,
        CommitType::Chore => "Use when making non-functional changes that don't concern the codebase."@,
        CommitType::Ci => "Use when changing CI configurations or scripts."@,
        CommitType::Docs => "Use when making changes to documentation."@,
        CommitType::Style => "Use when making non-semantic changes, such as formatting."@,
        CommitType::Refactor => "Use when making changes that don't fix a bug or add a feature."@,
        CommitType::Revert => "Use when reverting a previous/prior commit."@,
        CommitType::Perf => "Use when making changes to improve performance."@,
        CommitType::Test => "Use when adding tests or editing existing ones."@,
    }
}

/// Human-readable description of a footer kind, as shown in the chooser.
pub open spec fn spec_footer_description(f: CommitFooter) -> Seq<char> {
    match f {
        CommitFooter::BreakingChange => "Use when the change breaks existing behaviour or APIs."@,
        CommitFooter::SignedOffBy => "Use to certify the author's sign-off on the change."@,
        CommitFooter::AckedBy => "Use to record who acknowledged the change."@,
        CommitFooter::HelpedBy => "Use to credit someone who helped with the change."@,
        CommitFooter::ReferenceTo => "Use to point at a related commit or document."@,
        CommitFooter::SeeAlso => "Use to point at further reading on the change."@,
        CommitFooter::Fixes => "Use to name the issue this change fixes."@,
        CommitFooter::Cc => "Use to bring the change to someone's attention."@,
        CommitFooter::ReviewedBy => "Use to record who reviewed the change."@,
    }
}

/// Canonical keyword of a footer kind, as a sequence of characters.
pub open spec fn spec_footer_keyword(f: CommitFooter) -> Seq<char> {
    match f {
        CommitFooter::BreakingChange => "BreakingChange"@,
        CommitFooter::SignedOffBy => "SignedOffBy"@,
        CommitFooter::AckedBy => "AckedBy"@,
        CommitFooter::HelpedBy => "HelpedBy"@,
        CommitFooter::ReferenceTo => "ReferenceTo"@,
        CommitFooter::SeeAlso => "SeeAlso"@,
        CommitFooter::Fixes => "Fixes"@,
        CommitFooter::Cc => "Cc"@,
        CommitFooter::ReviewedBy => "ReviewedBy"@,
    }
}

/// The inverse direction of the footer table.
pub open spec fn spec_footer_of_keyword(s: Seq<char>) -> Option<CommitFooter> {
    if s == "BreakingChange"@ {
        Some(CommitFooter::BreakingChange)
    } else if s == "SignedOffBy"@ {
        Some(CommitFooter::SignedOffBy)
    } else if s == "AckedBy"@ {
        Some(CommitFooter::AckedBy)
    } else if s == "HelpedBy"@ {
        Some(CommitFooter::HelpedBy)
    } else if s == "ReferenceTo"@ {
        Some(CommitFooter::ReferenceTo)
    } else if s == "SeeAlso"@ {
        Some(CommitFooter::SeeAlso)
    } else if s == "Fixes"@ {
        Some(CommitFooter::Fixes)
    } else if s == "Cc"@ {
        Some(CommitFooter::Cc)
    } else if s == "ReviewedBy"@ {
        Some(CommitFooter::ReviewedBy)
    } else {
        None
    }
}

/// All entries of the commit-type catalog, in catalog order.
pub open spec fn spec_all_types() -> Seq<CommitType> {
    seq![
        CommitType::Fix,
        CommitType::Feat,
        CommitType::Build,
        CommitType::Chore,
        CommitType::Ci,
        CommitType::Docs,
        CommitType::Style,
        CommitType::Refactor,
        CommitType::Revert,
        CommitType::Perf,
        CommitType::Test,
    ]
}

/// All entries of the footer catalog, in catalog order.
pub open spec fn spec_all_footers() -> Seq<CommitFooter> {
    seq![
        CommitFooter::BreakingChange,
        CommitFooter::SignedOffBy,
        CommitFooter::AckedBy,
        CommitFooter::HelpedBy,
        CommitFooter::ReferenceTo,
        CommitFooter::SeeAlso,
        CommitFooter::Fixes,
        CommitFooter::Cc,
        CommitFooter::ReviewedBy,
    ]
}

/// Character-wise equality of two string slices, decided through owned
/// copies so that the result is pinned to the views.
fn str_eq(a: &str, b: &str) -> (r: bool)
    ensures
        r == (a@ == b@),
{
    let owned_a: String = a.to_owned();
    let owned_b: String = b.to_owned();
    owned_a == owned_b
}

impl CommitType {
    /// The canonical keyword of this entry, forward direction of the
    /// bijective type/keyword table.
    pub fn to_keyword(&self) -> (r: &'static str)
        ensures
            r@ == spec_type_keyword(*self),
    {
        match self {
            CommitType::Fix => "fix",
            CommitType::Feat => "feat",
            CommitType::Build => "build",
            CommitType::Chore => "chore",
            CommitType::Ci => "ci",
            CommitType::Docs => "docs",
            CommitType::Style => "style",
            CommitType::Refactor => "refactor",
            CommitType::Revert => "revert",
            CommitType::Perf => "perf",
            CommitType::Test => "test",
        }
    }

    /// Backward direction of the table: the entry whose canonical keyword
    /// is exactly `s`. Any other string is rejected, never defaulted.
    pub fn from_keyword(s: &str) -> (r: Result<CommitType, ConvitError>)
        ensures
            r == (match spec_type_of_keyword(s@) {
                Some(t) => Ok::<CommitType, ConvitError>(t),
                None => Err::<CommitType, ConvitError>(ConvitError::UnknownCommitType),
            }),
    {
        if str_eq(s, "fix") {
            Ok(CommitType::Fix)
        } else if str_eq(s, "feat") {
            Ok(CommitType::Feat)
        } else if str_eq(s, "build") {
            Ok(CommitType::Build)
        } else if str_eq(s, "chore") {
            Ok(CommitType::Chore)
        } else if str_eq(s, "ci") {
            Ok(CommitType::Ci)
        } else if str_eq(s, "docs") {
            Ok(CommitType::Docs)
        } else if str_eq(s, "style") {
            Ok(CommitType::Style)
        } else if str_eq(s, "refactor") {
            Ok(CommitType::Refactor)
        } else if str_eq(s, "revert") {
            Ok(CommitType::Revert)
        } else if str_eq(s, "perf") {
            Ok(CommitType::Perf)
        } else if str_eq(s, "test") {
            Ok(CommitType::Test)
        } else {
            Err(ConvitError::UnknownCommitType)
        }
    }

    /// The whole commit-type catalog, in catalog order.
    pub fn all() -> (r: Vec<CommitType>)
        ensures
            r@ == spec_all_types(),
    {
        let mut v: Vec<CommitType> = Vec::new();
        v.push(CommitType::Fix);
        v.push(CommitType::Feat);
        v.push(CommitType::Build);
        v.push(CommitType::Chore);
        v.push(CommitType::Ci);
        v.push(CommitType::Docs);
        v.push(CommitType::Style);
        v.push(CommitType::Refactor);
        v.push(CommitType::Revert);
        v.push(CommitType::Perf);
        v.push(CommitType::Test);
        proof {
            assert(v@ =~= spec_all_types());
        }
        v
    }

    /// Human-readable description of this entry, shown in the chooser.
    pub fn description(&self) -> (r: &'static str)
        ensures
            r@ == spec_type_description(*self),
    {
        match self {
            CommitType::Fix => "Use when making changes to patch a bug.",
            CommitType::Feat => "Use when adding a new feature.",
            CommitType::Build => "Use when changing the build system or external dependencies.",
            CommitType::Chore => "Use when making non-functional changes that don't concern the codebase.",
            CommitType::Ci => "Use when changing CI configurations or scripts.",
            CommitType::Docs => "Use when making changes to documentation.",
            CommitType::Style => "Use when making non-semantic changes, such as formatting.",
            CommitType::Refactor => "Use when making changes that don't fix a bug or add a feature.",
            CommitType::Revert => "Use when reverting a previous/prior commit.",
            CommitType::Perf => "Use when making changes to improve performance.",
            CommitType::Test => "Use when adding tests or editing existing ones.",
        }
    }
}

impl CommitFooter {
    /// The canonical keyword of this footer kind, written exactly as it
    /// appears in a rendered footer line.
    pub fn to_keyword(&self) -> (r: &'static str)
        ensures
            r@ == spec_footer_keyword(*self),
    {
        match self {
            CommitFooter::BreakingChange => "BreakingChange",
            CommitFooter::SignedOffBy => "SignedOffBy",
            CommitFooter::AckedBy => "AckedBy",
            CommitFooter::HelpedBy => "HelpedBy",
            CommitFooter::ReferenceTo => "ReferenceTo",
            CommitFooter::SeeAlso => "SeeAlso",
            CommitFooter::Fixes => "Fixes",
            CommitFooter::Cc => "Cc",
            CommitFooter::ReviewedBy => "ReviewedBy",
        }
    }

    /// Backward direction of the footer table: the kind whose canonical
    /// keyword is exactly `s`; any other string is rejected.
    pub fn from_keyword(s: &str) -> (r: Result<CommitFooter, ConvitError>)
        ensures
            r == (match spec_footer_of_keyword(s@) {
                Some(f) => Ok::<CommitFooter, ConvitError>(f),
                None => Err::<CommitFooter, ConvitError>(ConvitError::UnknownFooterKind),
            }),
    {
        if str_eq(s, "BreakingChange") {
            Ok(CommitFooter::BreakingChange)
        } else if str_eq(s, "SignedOffBy") {
            Ok(CommitFooter::SignedOffBy)
        } else if str_eq(s, "AckedBy") {
            Ok(CommitFooter::AckedBy)
        } else if str_eq(s, "HelpedBy") {
            Ok(CommitFooter::HelpedBy)
        } else if str_eq(s, "ReferenceTo") {
            Ok(CommitFooter::ReferenceTo)
        } else if str_eq(s, "SeeAlso") {
            Ok(CommitFooter::SeeAlso)
        } else if str_eq(s, "Fixes") {
            Ok(CommitFooter::Fixes)
        } else if str_eq(s, "Cc") {
            Ok(CommitFooter::Cc)
        } else if str_eq(s, "ReviewedBy") {
            Ok(CommitFooter::ReviewedBy)
        } else {
            Err(ConvitError::UnknownFooterKind)
        }
    }

    /// The whole footer catalog, in catalog order.
    pub fn all() -> (r: Vec<CommitFooter>)
        ensures
            r@ == spec_all_footers(),
    {
        let mut v: Vec<CommitFooter> = Vec::new();
        v.push(CommitFooter::BreakingChange);
        v.push(CommitFooter::SignedOffBy);
        v.push(CommitFooter::AckedBy);
        v.push(CommitFooter::HelpedBy);
        v.push(CommitFooter::ReferenceTo);
        v.push(CommitFooter::SeeAlso);
        v.push(CommitFooter::Fixes);
        v.push(CommitFooter::Cc);
        v.push(CommitFooter::ReviewedBy);
        proof {
            assert(v@ =~= spec_all_footers());
        }
        v
    }

    /// Human-readable description of this footer kind, shown in the chooser.
    pub fn description(&self) -> (r: &'static str)
        ensures
            r@ == spec_footer_description(*self),
    {
        match self {
            CommitFooter::BreakingChange => "Use when the change breaks existing behaviour or APIs.",
            CommitFooter::SignedOffBy => "Use to certify the author's sign-off on the change.",
            CommitFooter::AckedBy => "Use to record who acknowledged the change.",
            CommitFooter::HelpedBy => "Use to credit someone who helped with the change.",
            CommitFooter::ReferenceTo => "Use to point at a related commit or document.",
            CommitFooter::SeeAlso => "Use to point at further reading on the change.",
            CommitFooter::Fixes => "Use to name the issue this change fixes.",
            CommitFooter::Cc => "Use to bring the change to someone's attention.",
            CommitFooter::ReviewedBy => "Use to record who reviewed the change.",
        }
    }
}

/// Round trip through the commit-type table: looking up the canonical
/// keyword of any entry yields that entry back. Together with the shape of
/// `spec_type_of_keyword` this makes the type/keyword mapping a bijection
/// between the catalog and its keywords.
pub proof fn lemma_type_keyword_round_trip(t: CommitType)
    ensures
        spec_type_of_keyword(spec_type_keyword(t)) == Some(t),
{
    reveal_strlit("fix");
    reveal_strlit("feat");
    reveal_strlit("build");
    reveal_strlit("chore");
    reveal_strlit("ci");
    reveal_strlit("docs");
    reveal_strlit("style");
    reveal_strlit("refactor");
    reveal_strlit("revert");
    reveal_strlit("perf");
    reveal_strlit("test");
    assert("fix"@.len() == 3);
    assert("feat"@.len() == 4);
    assert("build"@.len() == 5);
    assert("chore"@.len() == 5);
    assert("ci"@.len() == 2);
    assert("docs"@.len() == 4);
    assert("style"@.len() == 5);
    assert("refactor"@.len() == 8);
    assert("revert"@.len() == 6);
    assert("perf"@.len() == 4);
    assert("test"@.len() == 4);
    assert("feat"@[0] == 'f');
    assert("docs"@[0] == 'd');
    assert("perf"@[0] == 'p');
    assert("test"@[0] == 't');
    assert("build"@[0] == 'b');
    assert("chore"@[0] == 'c');
    assert("style"@[0] == 's');
    match t {
        CommitType::Fix => assert(spec_type_of_keyword("fix"@) == Some(CommitType::Fix)),
        CommitType::Feat => assert(spec_type_of_keyword("feat"@) == Some(CommitType::Feat)),
        CommitType::Build => assert(spec_type_of_keyword("build"@) == Some(CommitType::Build)),
        CommitType::Chore => assert(spec_type_of_keyword("chore"@) == Some(CommitType::Chore)),
        CommitType::Ci => assert(spec_type_of_keyword("ci"@) == Some(CommitType::Ci)),
        CommitType::Docs => assert(spec_type_of_keyword("docs"@) == Some(CommitType::Docs)),
        CommitType::Style => assert(spec_type_of_keyword("style"@) == Some(CommitType::Style)),
        CommitType::Refactor => assert(spec_type_of_keyword("refactor"@) == Some(
            CommitType::Refactor,
        )),
        CommitType::Revert => assert(spec_type_of_keyword("revert"@) == Some(CommitType::Revert)),
        CommitType::Perf => assert(spec_type_of_keyword("perf"@) == Some(CommitType::Perf)),
        CommitType::Test => assert(spec_type_of_keyword("test"@) == Some(CommitType::Test)),
    }
}

/// Round trip through the footer table: looking up the canonical keyword
/// of any footer kind yields that kind back.
pub proof fn lemma_footer_keyword_round_trip(f: CommitFooter)
    ensures
        spec_footer_of_keyword(spec_footer_keyword(f)) == Some(f),
{
    reveal_strlit("BreakingChange");
    reveal_strlit("SignedOffBy");
    reveal_strlit("AckedBy");
    reveal_strlit("HelpedBy");
    reveal_strlit("ReferenceTo");
    reveal_strlit("SeeAlso");
    reveal_strlit("Fixes");
    reveal_strlit("Cc");
    reveal_strlit("ReviewedBy");
    assert("BreakingChange"@.len() == 14);
    assert("SignedOffBy"@.len() == 11);
    assert("AckedBy"@.len() == 7);
    assert("HelpedBy"@.len() == 8);
    assert("ReferenceTo"@.len() == 11);
    assert("SeeAlso"@.len() == 7);
    assert("Fixes"@.len() == 5);
    assert("Cc"@.len() == 2);
    assert("ReviewedBy"@.len() == 10);
    assert("SignedOffBy"@[0] == 'S');
    assert("ReferenceTo"@[0] == 'R');
    assert("AckedBy"@[0] == 'A');
    assert("SeeAlso"@[0] == 'S');
    match f {
        CommitFooter::BreakingChange => assert(spec_footer_of_keyword("BreakingChange"@) == Some(
            CommitFooter::BreakingChange,
        )),
        CommitFooter::SignedOffBy => assert(spec_footer_of_keyword("SignedOffBy"@) == Some(
            CommitFooter::SignedOffBy,
        )),
        CommitFooter::AckedBy => assert(spec_footer_of_keyword("AckedBy"@) == Some(
            CommitFooter::AckedBy,
        )),
        CommitFooter::HelpedBy => assert(spec_footer_of_keyword("HelpedBy"@) == Some(
            CommitFooter::HelpedBy,
        )),
        CommitFooter::ReferenceTo => assert(spec_footer_of_keyword("ReferenceTo"@) == Some(
            CommitFooter::ReferenceTo,
        )),
        CommitFooter::SeeAlso => assert(spec_footer_of_keyword("SeeAlso"@) == Some(
            CommitFooter::SeeAlso,
        )),
        CommitFooter::Fixes => assert(spec_footer_of_keyword("Fixes"@) == Some(CommitFooter::Fixes)),
        CommitFooter::Cc => assert(spec_footer_of_keyword("Cc"@) == Some(CommitFooter::Cc)),
        CommitFooter::ReviewedBy => assert(spec_footer_of_keyword("ReviewedBy"@) == Some(
            CommitFooter::ReviewedBy,
        )),
    }
}

} // verus!
