//! How deeply the arrays and objects of a JSON text are nested, measured on
//! the raw bytes before any parser runs.
//!
//! The standard parser gives up beyond 127 levels. The accelerated one has no
//! such limit and turns a tape into a value by recursion, so the accelerated
//! loader measures first and declines what the standard loader would decline.

use vstd::prelude::*;

verus! {

/// The deepest nesting that the loaders follow.
pub const MAX_NESTING: usize = 127;

/// Where a scan stands after a prefix of the text.
pub struct Scan {
    /// The prefix ends inside a string.
    pub in_string: bool,
    /// The prefix ends inside a string, right after a backslash that escapes
    /// the byte to come.
    pub escaped: bool,
    /// How many arrays and objects are open at the end of the prefix.
    pub depth: nat,
    /// The largest number that were open at once.
    pub deepest: nat,
}

/// A scan before the first byte.
pub open spec fn scan_start() -> Scan {
    Scan { in_string: false, escaped: false, depth: 0, deepest: 0 }
}

/// A scan one byte further. Inside a string only a backslash, which
/// escapes the next byte, and the closing quote matter; outside, a quote opens
/// a string and brackets open and close a level. A closing bracket without an
/// open level changes nothing.
pub open spec fn scan_step(scan: Scan, byte: u8) -> Scan {
    if scan.in_string {
        if scan.escaped {
            Scan { escaped: false, ..scan }
        } else if byte == 0x5c {
            Scan { escaped: true, ..scan }
        } else if byte == 0x22 {
            Scan { in_string: false, ..scan }
        } else {
            scan
        }
    } else if byte == 0x22 {
        Scan { in_string: true, ..scan }
    } else if byte == 0x5b || byte == 0x7b {
        Scan {
            depth: scan.depth + 1,
            deepest: if scan.depth + 1 > scan.deepest {
                scan.depth + 1
            } else {
                scan.deepest
            },
            ..scan
        }
    } else if (byte == 0x5d || byte == 0x7d) && scan.depth > 0 {
        Scan { depth: (scan.depth - 1) as nat, ..scan }
    } else {
        scan
    }
}

/// A scan over a whole text, byte by byte from the left.
pub open spec fn scan(bytes: Seq<u8>) -> Scan
    decreases bytes.len(),
{
    if bytes.len() == 0 {
        scan_start()
    } else {
        scan_step(scan(bytes.drop_last()), bytes.last())
    }
}

/// The deepest nesting of arrays and objects in a text: the largest number
/// of brackets that are open at once outside of strings.
pub open spec fn nesting_depth(bytes: Seq<u8>) -> nat {
    scan(bytes).deepest
}

/// A scan never counts more open levels than it has seen bytes, and the
/// deepest level is never below the current one.
pub proof fn lemma_scan_bounds(bytes: Seq<u8>)
    ensures
        scan(bytes).depth <= scan(bytes).deepest <= bytes.len(),
        scan(bytes).escaped ==> scan(bytes).in_string,
    decreases bytes.len(),
{
    if bytes.len() > 0 {
        lemma_scan_bounds(bytes.drop_last());
    }
}

/// Measures the deepest nesting of arrays and objects in a text.
pub fn measure_nesting(bytes: &[u8]) -> (deepest: usize)
    ensures
        deepest == nesting_depth(bytes@),
{
    let mut in_string = false;
    let mut escaped = false;
    let mut depth: usize = 0;
    let mut deepest: usize = 0;
    let mut i: usize = 0;
    while i < bytes.len()
        invariant
            i <= bytes.len(),
            scan(bytes@.take(i as int)) == (Scan {
                in_string,
                escaped,
                depth: depth as nat,
                deepest: deepest as nat,
            }),
        decreases bytes.len() - i,
    {
        let byte = bytes[i];
        proof {
            let before = bytes@.take(i as int);
            let after = bytes@.take(i + 1);
            assert(after.drop_last() =~= before);
            assert(after.last() == byte);
            lemma_scan_bounds(before);
        }
        if in_string {
            if escaped {
                escaped = false;
            } else if byte == 0x5c {
                escaped = true;
            } else if byte == 0x22 {
                in_string = false;
            }
        } else if byte == 0x22 {
            in_string = true;
        } else if byte == 0x5b || byte == 0x7b {
            depth = depth + 1;
            if depth > deepest {
                deepest = depth;
            }
        } else if (byte == 0x5d || byte == 0x7d) && depth > 0 {
            depth = depth - 1;
        }
        i = i + 1;
    }
    assert(bytes@.take(i as int) =~= bytes@);
    deepest
}

} // verus!
