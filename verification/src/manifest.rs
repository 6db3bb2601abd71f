//! The integrity manifest: one line per required file, each line exactly two
//! whitespace-separated tokens, the published content hash and the file name.
//! A manifest with any other line shape is malformed, and provisioning fails
//! with `InvalidHash` before any download is attempted.
use crate::text::{line_tokens, split_char, split_when, tokens, trim_str, trimmed};
use crate::types::PreflightError;
use vstd::prelude::*;

verus! {

/// One required file: its published content hash and its name.
#[derive(Debug, Clone, PartialEq, Eq)]
pub struct ManifestEntry {
    pub hash: String,
    pub filename: String,
}

impl DeepView for ManifestEntry {
    type V = (Seq<char>, Seq<char>);

    open spec fn deep_view(&self) -> (Seq<char>, Seq<char>) {
        (self.hash@, self.filename@)
    }
}

/// The lines of the manifest body, after outer whitespace is trimmed.
pub open spec fn manifest_lines(s: Seq<char>) -> Seq<Seq<char>> {
    split_when(trimmed(s), |c: char| c == '\n')
}

/// The `(hash, filename)` pair a line denotes, if it has exactly two tokens.
pub open spec fn line_entry(line: Seq<char>) -> Option<(Seq<char>, Seq<char>)> {
    let ts = tokens(line);
    if ts.len() == 2 {
        Some((ts[0], ts[1]))
    } else {
        None
    }
}

/// What the manifest body denotes: its `(hash, filename)` pairs in order, or
/// nothing if any line has more or fewer than two tokens.  An empty body is
/// an empty manifest.
pub open spec fn manifest_spec(s: Seq<char>) -> Option<Seq<(Seq<char>, Seq<char>)>> {
    if trimmed(s).len() == 0 {
        Some(Seq::empty())
    } else {
        let ls = manifest_lines(s);
        if forall|i: int| 0 <= i < ls.len() ==> line_entry(#[trigger] ls[i]) is Some {
            Some(Seq::new(ls.len(), |i: int| line_entry(ls[i]).unwrap()))
        } else {
            None
        }
    }
}

/// Parse a manifest body into its entries.  Fails with `InvalidHash` exactly
/// when the body is malformed.
pub fn parse_manifest(text: &str) -> (r: Result<Vec<ManifestEntry>, PreflightError>)
    ensures
        r is Ok ==> manifest_spec(text@) == Some(r->Ok_0.deep_view()),
        r is Err ==> manifest_spec(text@) is None && r->Err_0 is InvalidHash,
{
    let body = trim_str(text);
    if body.as_str().unicode_len() == 0 {
        let out: Vec<ManifestEntry> = Vec::new();
        proof {
            assert(out.deep_view() =~= Seq::<(Seq<char>, Seq<char>)>::empty());
        }
        return Ok(out);
    }
    let lines = split_char(body.as_str(), '\n');
    let ghost ls = manifest_lines(text@);
    proof {
        assert(lines.deep_view() == ls);
    }
    let mut out: Vec<ManifestEntry> = Vec::new();
    let mut i: usize = 0;
    while i < lines.len()
        invariant
            ls == manifest_lines(text@),
            trimmed(text@).len() != 0,
            lines.deep_view() == ls,
            lines@.len() == ls.len(),
            i <= lines@.len(),
            forall|j: int| 0 <= j < i ==> line_entry(#[trigger] ls[j]) is Some,
            out.deep_view() =~= Seq::new(i as nat, |j: int| line_entry(ls[j]).unwrap()),
        decreases lines@.len() - i,
    {
        let ghost old_out = out.deep_view();
        let line = &lines[i];
        proof {
            assert(line@ == ls[i as int]);
        }
        let ts = line_tokens(line.as_str());
        proof {
            assert(ts.deep_view().len() == ts@.len());
        }
        if ts.len() != 2 {
            proof {
                assert(line_entry(ls[i as int]) is None);
                assert(!(forall|k: int| 0 <= k < ls.len() ==> line_entry(#[trigger] ls[k]) is Some))
                    by {
                    assert(0 <= i < ls.len() && !(line_entry(ls[i as int]) is Some));
                }
            }
            return Err(PreflightError::InvalidHash);
        }
        let hash = ts[0].clone();
        let filename = ts[1].clone();
        proof {
            assert(hash@ == tokens(ls[i as int])[0]);
            assert(filename@ == tokens(ls[i as int])[1]);
        }
        out.push(ManifestEntry { hash, filename });
        proof {
            assert(out.deep_view() =~= old_out.push(line_entry(ls[i as int]).unwrap()));
            assert(out.deep_view() =~= Seq::new((i + 1) as nat, |j: int| line_entry(ls[j]).unwrap()));
        }
        i = i + 1;
    }
    proof {
        assert(manifest_spec(text@) == Some(out.deep_view()));
    }
    Ok(out)
}

} // verus!
