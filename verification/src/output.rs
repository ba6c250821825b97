//! The output-format choice of the command-line surface, and identifier
//! truncation for display.  Rendering itself (tables, colors) lives
//! outside the verified core.

use crate::strutil::spec_min_len;
use vstd::prelude::*;
use vstd::string::*;

verus! {

/// How listings are rendered.
#[derive(Debug, Clone, Copy, PartialEq, Eq, Structural)]
pub enum OutputFormat {
    Table,
    Json,
}

/// ASCII lowercase of the letters the format names use; other characters
/// unchanged.
pub open spec fn lower_char(c: char) -> char {
    if c == 'T' {
        't'
    } else if c == 'A' {
        'a'
    } else if c == 'B' {
        'b'
    } else if c == 'L' {
        'l'
    } else if c == 'E' {
        'e'
    } else if c == 'J' {
        'j'
    } else if c == 'S' {
        's'
    } else if c == 'O' {
        'o'
    } else if c == 'N' {
        'n'
    } else {
        c
    }
}

/// The sequence with its format letters lowered.
pub open spec fn lowered(s: Seq<char>) -> Seq<char> {
    s.map_values(|c: char| lower_char(c))
}

/// Which format a string names, letter case aside.
pub open spec fn spec_output_format(s: Seq<char>) -> Option<OutputFormat> {
    if lowered(s) == "table"@ {
        Some(OutputFormat::Table)
    } else if lowered(s) == "json"@ {
        Some(OutputFormat::Json)
    } else {
        None
    }
}

/// Whether `s`, its format letters lowered, equals `t`.
fn eq_lowered(s: &str, t: &str) -> (r: bool)
    ensures
        r == (lowered(s@) == t@),
{
    let slen = s.unicode_len();
    let tlen = t.unicode_len();
    if slen != tlen {
        proof {
            assert(lowered(s@).len() == s@.len());
        }
        return false;
    }
    let mut i: usize = 0;
    while i < slen
        invariant
            slen == s@.len(),
            tlen == t@.len(),
            slen == tlen,
            0 <= i <= slen,
            forall|j: int| 0 <= j < i ==> lower_char(s@[j]) == t@[j],
        decreases slen - i,
    {
        let c = s.get_char(i);
        let low = match c {
            'T' => 't',
            'A' => 'a',
            'B' => 'b',
            'L' => 'l',
            'E' => 'e',
            'J' => 'j',
            'S' => 's',
            'O' => 'o',
            'N' => 'n',
            other => other,
        };
        if low != t.get_char(i) {
            proof {
                assert(lowered(s@)[i as int] == lower_char(s@[i as int]));
            }
            return false;
        }
        i = i + 1;
    }
    proof {
        assert(lowered(s@) =~= t@);
    }
    true
}

impl OutputFormat {
    /// Parse a format name, letter case aside: `table` or `json`.
    pub fn from_str(s: &str) -> (r: Option<OutputFormat>)
        ensures
            r == spec_output_format(s@),
    {
        proof {
            reveal_strlit("table");
            reveal_strlit("json");
        }
        if eq_lowered(s, "table") {
            Some(OutputFormat::Table)
        } else if eq_lowered(s, "json") {
            Some(OutputFormat::Json)
        } else {
            None
        }
    }
}

/// An identifier shortened to a display length, with an ellipsis where it
/// was truncated.
pub open spec fn spec_truncated(id: Seq<char>, length: int) -> Seq<char> {
    if length < id.len() {
        id.take(spec_min_len(length, id.len() as int)) + "..."@
    } else {
        id
    }
}

/// Truncate an identifier for display.
pub fn truncate_id(id: &str, length: usize) -> (r: String)
    ensures
        r@ == spec_truncated(id@, length as int),
{
    let idlen = id.unicode_len();
    let safe = if length < idlen {
        length
    } else {
        idlen
    };
    let shown = id.substring_char(0, safe);
    if safe < idlen {
        let mut s = String::from_str(shown);
        s.append("...");
        proof {
            assert(shown@ =~= id@.take(safe as int));
        }
        s
    } else {
        proof {
            assert(shown@ =~= id@);
        }
        String::from_str(shown)
    }
}

} // verus!
