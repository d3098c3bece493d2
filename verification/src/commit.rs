use vstd::prelude::*;
use vstd::string::StringExecFns;

use crate::catalog::{spec_footer_keyword, spec_type_keyword, CommitFooter, CommitType};
use crate::draft::{is_blank, CommitDraft};
use crate::errors::ConvitError;

verus! {

/// One rendered footer line, without its terminating newline:
/// the kind's canonical keyword, a colon and a space, then the value.
pub open spec fn spec_footer_line(f: (CommitFooter, Seq<char>)) -> Seq<char> {
    spec_footer_keyword(f.0) + ": "@ + f.1
}

/// The rendered footer lines in insertion order, each preceded by the
/// newline that ends the line before it.
pub open spec fn spec_footer_lines(fs: Seq<(CommitFooter, Seq<char>)>) -> Seq<char>
    decreases fs.len(),
{
    if fs.len() == 0 {
        Seq::<char>::empty()
    } else {
        spec_footer_lines(fs.drop_last()) + "\n"@ + spec_footer_line(fs.last())
    }
}

/// The header line: the type keyword, the scope in parentheses when
/// present, a colon and a space, then the description.
pub open spec fn spec_header(t: CommitType, scope: Option<Seq<char>>, desc: Seq<char>) -> Seq<
    char,
> {
    spec_type_keyword(t) + (match scope {
        Some(s) => "("@ + s + ")"@,
        None => Seq::<char>::empty(),
    }) + ": "@ + desc
}

/// The canonical message text of a complete draft: the header line; when
/// a body is present, a blank line then the body verbatim; when footers
/// are present, a blank line then one line per footer in insertion order.
pub open spec fn spec_message(d: CommitDraft) -> Seq<char>
    recommends
        d.commit_type is Some,
{
    spec_header(d.commit_type->0, d.scope_view(), d.description@) + (match d.body_view() {
        Some(b) => "\n\n"@ + b,
        None => Seq::<char>::empty(),
    }) + (if d.footers_view().len() > 0 {
        "\n"@ + spec_footer_lines(d.footers_view())
    } else {
        Seq::<char>::empty()
    })
}

/// The immutable result of finalizing a draft: the canonical message
/// text, with no further mutation.
#[derive(Debug, Clone, PartialEq, Eq)]
pub struct ConventionalCommit {
    /// The full message text.
    pub text: String,
}

impl ConventionalCommit {
    /// Validate a draft and render its canonical message text. Succeeds
    /// exactly when the draft is complete (a commit type was chosen and
    /// the description is not blank); otherwise it fails with
    /// `IncompleteDraft` naming the missing fields. The text is a pure
    /// function of the draft's current values.
    pub fn new(draft: &CommitDraft) -> (r: Result<ConventionalCommit, ConvitError>)
        ensures
            draft.complete() <==> r is Ok,
            r is Ok ==> r->Ok_0.text@ == spec_message(*draft),
            !draft.complete() ==> r == Err::<ConventionalCommit, ConvitError>(
                ConvitError::IncompleteDraft {
                    missing_type: draft.commit_type is None,
                    missing_description: is_blank(draft.description@),
                },
            ),
    {
        let missing_description = crate::draft::is_blank_str(draft.description.as_str());
        let t = match draft.commit_type {
            Some(t) => t,
            None => {
                return Err(
                    ConvitError::IncompleteDraft { missing_type: true, missing_description },
                );
            },
        };
        if missing_description {
            return Err(ConvitError::IncompleteDraft { missing_type: false, missing_description });
        }

        let mut text: String = t.to_keyword().to_owned();
        if let Some(scope) = &draft.scope {
            text.append("(");
            text.append(scope.as_str());
            text.append(")");
        }
        text.append(": ");
        text.append(draft.description.as_str());
        proof {
            assert(text@ =~= spec_header(t, draft.scope_view(), draft.description@));
        }

        if let Some(body) = &draft.body {
            text.append("\n\n");
            text.append(body.as_str());
        }
        let ghost with_body = spec_header(t, draft.scope_view(), draft.description@) + (
        match draft.body_view() {
            Some(b) => "\n\n"@ + b,
            None => Seq::<char>::empty(),
        });
        proof {
            assert(text@ =~= with_body);
        }

        let n = draft.footers.len();
        if n > 0 {
            text.append("\n");
            let ghost fv = draft.footers_view();
            let mut i: usize = 0;
            while i < n
                invariant
                    i <= n,
                    n == draft.footers@.len(),
                    fv == draft.footers_view(),
                    text@ == with_body + "\n"@ + spec_footer_lines(fv.take(i as int)),
                decreases n - i,
            {
                proof {
                    assert(fv.take(i as int) =~= fv.take(i + 1).drop_last());
                    assert(fv.take(i + 1).last() == fv[i as int]);
                }
                let kind = draft.footers[i].0;
                text.append("\n");
                text.append(kind.to_keyword());
                text.append(": ");
                text.append(draft.footers[i].1.as_str());
                proof {
                    assert(draft.footers_view()[i as int] == (
                    draft.footers@[i as int].0,
                    draft.footers@[i as int].1@,
                    ));
                    assert(text@ =~= with_body + "\n"@ + spec_footer_lines(fv.take(i + 1)));
                }
                i = i + 1;
            }
            proof {
                assert(fv.take(n as int) =~= fv);
                assert(text@ =~= spec_message(*draft));
            }
        } else {
            proof {
                assert(draft.footers_view().len() == 0);
                assert(text@ =~= spec_message(*draft));
            }
        }
        Ok(ConventionalCommit { text })
    }

    /// The rendered message text.
    pub fn as_text(&self) -> (r: &String)
        ensures
            r@ == self.text@,
    {
        &self.text
    }
}

} // verus!
