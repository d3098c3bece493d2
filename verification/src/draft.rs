use vstd::prelude::*;
use vstd::string::StrSliceExecFns;

use crate::catalog::{spec_footer_of_keyword, CommitFooter, CommitType};
use crate::errors::ConvitError;

verus! {

/// The whitespace characters that trimming removes.
pub open spec fn is_space_char(c: char) -> bool {
    c == ' ' || c == '\t' || c == '\n' || c == '\r'
}

/// A text is blank when nothing but whitespace is left after trimming.
pub open spec fn is_blank(s: Seq<char>) -> bool {
    forall|i: int| 0 <= i < s.len() ==> is_space_char(#[trigger] s[i])
}

/// Whether `s` is empty after trimming whitespace.
pub fn is_blank_str(s: &str) -> (b: bool)
    ensures
        b == is_blank(s@),
{
    let n = s.unicode_len();
    let mut i: usize = 0;
    while i < n
        invariant
            i <= n,
            n == s@.len(),
            forall|j: int| 0 <= j < i ==> is_space_char(#[trigger] s@[j]),
        decreases n - i,
    {
        let c = s.get_char(i);
        if !(c == ' ' || c == '\t' || c == '\n' || c == '\r') {
            return false;
        }
        i = i + 1;
    }
    true
}

/// The mutable accumulator of the fields chosen or typed so far. Created
/// empty at session start, filled field by field as each editing step is
/// confirmed, and read by the finalizer.
#[derive(Debug, Clone)]
pub struct CommitDraft {
    /// The chosen commit type; no default is ever substituted, its
    /// absence is reported at finalize time.
    pub commit_type: Option<CommitType>,
    /// The scope, absent when no scope was entered.
    pub scope: Option<String>,
    /// The description; required non-blank by the finalizer.
    pub description: String,
    /// The body, absent when no body was entered.
    pub body: Option<String>,
    /// The footers in insertion order; repeated kinds are kept.
    pub footers: Vec<(CommitFooter, String)>,
}

impl CommitDraft {
    /// The scope as a character sequence, when present.
    pub open spec fn scope_view(self) -> Option<Seq<char>> {
        match self.scope {
            Some(s) => Some(s@),
            None => None,
        }
    }

    /// The body as a character sequence, when present.
    pub open spec fn body_view(self) -> Option<Seq<char>> {
        match self.body {
            Some(s) => Some(s@),
            None => None,
        }
    }

    /// The footers as pairs of kind and value characters, in insertion
    /// order.
    pub open spec fn footers_view(self) -> Seq<(CommitFooter, Seq<char>)> {
        self.footers@.map_values(|f: (CommitFooter, String)| (f.0, f.1@))
    }

    /// A draft is complete when a commit type was chosen and the
    /// description is not blank; only then may it be finalized.
    pub open spec fn complete(self) -> bool {
        self.commit_type is Some && !is_blank(self.description@)
    }

    /// The empty draft: nothing chosen, nothing typed.
    pub fn new() -> (r: Self)
        ensures
            r.commit_type is None,
            r.scope is None,
            r.description@ == Seq::<char>::empty(),
            r.body is None,
            r.footers@ == Seq::<(CommitFooter, String)>::empty(),
    {
        CommitDraft {
            commit_type: None,
            scope: None,
            description: String::new(),
            body: None,
            footers: Vec::new(),
        }
    }

    /// Store the chosen commit type. The argument is an entry of the
    /// commit-type catalog by construction, so this cannot fail.
    pub fn set_type(&mut self, entry: CommitType)
        ensures
            final(self).commit_type == Some(entry),
            final(self).scope == old(self).scope,
            final(self).description == old(self).description,
            final(self).body == old(self).body,
            final(self).footers == old(self).footers,
    {
        self.commit_type = Some(entry);
    }

    /// Store the scope; an empty text is normalized to "no scope".
    pub fn set_scope(&mut self, text: String)
        ensures
            text@.len() == 0 ==> final(self).scope is None,
            text@.len() > 0 ==> final(self).scope_view() == Some(text@),
            final(self).commit_type == old(self).commit_type,
            final(self).description == old(self).description,
            final(self).body == old(self).body,
            final(self).footers == old(self).footers,
    {
        if text.as_str().is_empty() {
            self.scope = None;
        } else {
            self.scope = Some(text);
        }
    }

    /// Store the description; a text that is blank after trimming is
    /// rejected with `EmptyDescription` and the draft is left unchanged.
    pub fn set_description(&mut self, text: String) -> (r: Result<(), ConvitError>)
        ensures
            is_blank(text@) ==> {
                &&& r == Err::<(), ConvitError>(ConvitError::EmptyDescription)
                &&& final(self).description == old(self).description
            },
            !is_blank(text@) ==> {
                &&& r == Ok::<(), ConvitError>(())
                &&& final(self).description@ == text@
            },
            final(self).commit_type == old(self).commit_type,
            final(self).scope == old(self).scope,
            final(self).body == old(self).body,
            final(self).footers == old(self).footers,
    {
        if is_blank_str(text.as_str()) {
            Err(ConvitError::EmptyDescription)
        } else {
            self.description = text;
            Ok(())
        }
    }

    /// Store the body; an empty text is normalized to "no body".
    pub fn set_body(&mut self, text: String)
        ensures
            text@.len() == 0 ==> final(self).body is None,
            text@.len() > 0 ==> final(self).body_view() == Some(text@),
            final(self).commit_type == old(self).commit_type,
            final(self).scope == old(self).scope,
            final(self).description == old(self).description,
            final(self).footers == old(self).footers,
    {
        if text.as_str().is_empty() {
            self.body = None;
        } else {
            self.body = Some(text);
        }
    }

    /// Append a footer of an already-resolved catalog kind; duplicates of
    /// the same kind are permitted and kept in call order.
    pub fn push_footer(&mut self, kind: CommitFooter, value: String)
        ensures
            final(self).footers@ == old(self).footers@.push((kind, value)),
            final(self).footers_view() == old(self).footers_view().push((kind, value@)),
            final(self).commit_type == old(self).commit_type,
            final(self).scope == old(self).scope,
            final(self).description == old(self).description,
            final(self).body == old(self).body,
    {
        self.footers.push((kind, value));
        proof {
            assert(self.footers_view() =~= old(self).footers_view().push((kind, value@)));
        }
    }

    /// Append a footer named by its keyword: the kind must belong to the
    /// footer catalog, else the call fails with `UnknownFooterKind` and
    /// the draft is left unchanged.
    pub fn add_footer(&mut self, kind: &str, value: String) -> (r: Result<(), ConvitError>)
        ensures
            (match spec_footer_of_keyword(kind@) {
                Some(k) => {
                    &&& r == Ok::<(), ConvitError>(())
                    &&& final(self).footers@ == old(self).footers@.push((k, value))
                    &&& final(self).footers_view() == old(self).footers_view().push((k, value@))
                },
                None => {
                    &&& r == Err::<(), ConvitError>(ConvitError::UnknownFooterKind)
                    &&& final(self).footers == old(self).footers
                },
            }),
            final(self).commit_type == old(self).commit_type,
            final(self).scope == old(self).scope,
            final(self).description == old(self).description,
            final(self).body == old(self).body,
    {
        match CommitFooter::from_keyword(kind) {
            Ok(k) => {
                self.push_footer(k, value);
                Ok(())
            },
            Err(e) => Err(e),
        }
    }

    /// Whether the draft is complete: a commit type was chosen and the
    /// description is not blank.
    pub fn is_complete(&self) -> (b: bool)
        ensures
            b == self.complete(),
    {
        self.commit_type.is_some() && !is_blank_str(self.description.as_str())
    }
}

} // verus!
