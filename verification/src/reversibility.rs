//! Keyword-level reversibility (side effect) measures.
use vstd::prelude::*;
use crate::metrics::count_all;
use crate::text::{chars_of, distinct_patterns, lemma_differ_at, total_occurrences};

verus! {

/// The output, file, process and network markers counted as side effects.
pub open spec fn side_effect_markers() -> Seq<Seq<char>> {
    seq![
        "println!"@,
        "print!"@,
        "eprintln!"@,
        "fs::"@,
        "File::"@,
        "Command::"@,
        "write!"@,
        "std::net::"@,
        "std::process::"@,
        "TcpStream::"@,
        "UdpSocket::"@,
        ".write("@,
        ".flush()"@,
    ]
}

/// Side effect count taken from source text.
#[derive(Debug, Clone)]
pub struct ReversibilityMetrics {
    /// Total occurrences of the side effect markers.
    pub side_effects: usize,
}

impl ReversibilityMetrics {
    /// Counts the side effect markers of `code`.
    pub fn from_code(code: &str) -> (m: Self)
        ensures
            m.side_effects == total_occurrences(code@, side_effect_markers()),
            m.side_effects <= code@.len(),
    {
        let s = chars_of(code);
        let markers: Vec<&str> = vec![
            "println!",
            "print!",
            "eprintln!",
            "fs::",
            "File::",
            "Command::",
            "write!",
            "std::net::",
            "std::process::",
            "TcpStream::",
            "UdpSocket::",
            ".write(",
            ".flush()",
        ];
        proof {
            reveal_strlit("println!");
            reveal_strlit("print!");
            reveal_strlit("eprintln!");
            reveal_strlit("fs::");
            reveal_strlit("File::");
            reveal_strlit("Command::");
            reveal_strlit("write!");
            reveal_strlit("std::net::");
            reveal_strlit("std::process::");
            reveal_strlit("TcpStream::");
            reveal_strlit("UdpSocket::");
            reveal_strlit(".write(");
            reveal_strlit(".flush()");
            let pats = markers@.map_values(|p: &str| p@);
            assert(pats =~= side_effect_markers());
            assert forall|a: int, b: int|
                0 <= a < pats.len() && 0 <= b < pats.len() && a != b implies crate::text::prefix_free(
                #[trigger] pats[a],
                #[trigger] pats[b],
            ) by {
                if (a == 0 && b == 1) || (a == 1 && b == 0) || (a == 7 && b == 8) || (a == 8 && b
                    == 7) {
                    lemma_differ_at(pats[a], pats[b], 5);
                } else if (a == 11 && b == 12) || (a == 12 && b == 11) {
                    lemma_differ_at(pats[a], pats[b], 1);
                } else {
                    lemma_differ_at(pats[a], pats[b], 0);
                }
            }
            assert(distinct_patterns(pats));
        }
        ReversibilityMetrics { side_effects: count_all(&s, &markers) }
    }

    /// The code holds no side effect marker.
    pub fn is_pure(&self) -> (b: bool)
        ensures
            b == (self.side_effects == 0),
    {
        self.side_effects == 0
    }
}

} // verus!
