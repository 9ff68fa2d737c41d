use vstd::prelude::*;

verus! {

/// `"`: groups separators into one token; the quote bytes themselves are dropped.
pub const QUOTE: u8 = 34;

/// `=`: splits a token into key and value at its first occurrence.
pub const EQUALS: u8 = 61;

/// One `key=value` token of the kernel command line. A token without `=`
/// has an empty value.
pub struct KeyValue {
    pub key: Vec<u8>,
    pub value: Vec<u8>,
}

/// The abstract view of a list of pairs.
pub open spec fn pairs_view(kvs: Seq<KeyValue>) -> Seq<(Seq<u8>, Seq<u8>)> {
    kvs.map_values(|kv: KeyValue| (kv.key@, kv.value@))
}

/// Bytes that end a token outside quotes: space, tab and newline.
pub open spec fn is_separator(c: u8) -> bool {
    c == 32 || c == 9 || c == 10
}

/// Tokenizer state after some prefix of the command line.
pub struct Scan {
    /// Tokens completed so far.
    pub pairs: Seq<(Seq<u8>, Seq<u8>)>,
    /// Key of the current token.
    pub key: Seq<u8>,
    /// Value of the current token.
    pub value: Seq<u8>,
    /// The current token has met its `=`.
    pub seen_equals: bool,
    /// Inside a quoted stretch.
    pub quoted: bool,
}

pub open spec fn scan_start() -> Scan {
    Scan { pairs: seq![], key: seq![], value: seq![], seen_equals: false, quoted: false }
}

/// Ends the current token; a token with neither key bytes nor `=` is dropped.
pub open spec fn flush(s: Scan) -> Scan {
    Scan {
        pairs: if s.key.len() > 0 || s.seen_equals {
            s.pairs.push((s.key, s.value))
        } else {
            s.pairs
        },
        key: seq![],
        value: seq![],
        seen_equals: false,
        quoted: s.quoted,
    }
}

/// Consumes one byte.
pub open spec fn scan_step(s: Scan, c: u8) -> Scan {
    if c == QUOTE {
        Scan { quoted: !s.quoted, ..s }
    } else if is_separator(c) && !s.quoted {
        flush(s)
    } else if c == EQUALS && !s.seen_equals {
        Scan { seen_equals: true, ..s }
    } else if s.seen_equals {
        Scan { value: s.value.push(c), ..s }
    } else {
        Scan { key: s.key.push(c), ..s }
    }
}

/// Tokenizer state after all of `line`.
pub open spec fn scan(line: Seq<u8>) -> Scan
    decreases line.len(),
{
    if line.len() == 0 {
        scan_start()
    } else {
        scan_step(scan(line.drop_last()), line.last())
    }
}

/// The `(key, value)` pairs of a command line, in order.
pub open spec fn parse_pairs(line: Seq<u8>) -> Seq<(Seq<u8>, Seq<u8>)> {
    flush(scan(line)).pairs
}

/// Splits a kernel command line into `key=value` pairs. Tokens are separated
/// by spaces, tabs or newlines; a double-quoted stretch keeps its separators
/// and loses its quotes; an unterminated quote runs to the end. Any input is
/// accepted.
pub fn parse_cmdline(line: &[u8]) -> (r: Vec<KeyValue>)
    ensures
        pairs_view(r@) == parse_pairs(line@),
{
    let mut pairs: Vec<KeyValue> = Vec::new();
    let mut key: Vec<u8> = Vec::new();
    let mut value: Vec<u8> = Vec::new();
    let mut seen_equals = false;
    let mut quoted = false;
    let mut i: usize = 0;
    assert(line@.take(0) =~= seq![]);
    while i < line.len()
        invariant
            i <= line@.len(),
            pairs_view(pairs@) == scan(line@.take(i as int)).pairs,
            key@ == scan(line@.take(i as int)).key,
            value@ == scan(line@.take(i as int)).value,
            seen_equals == scan(line@.take(i as int)).seen_equals,
            quoted == scan(line@.take(i as int)).quoted,
        decreases line@.len() - i,
    {
        let c = line[i];
        assert(line@.take(i + 1).drop_last() =~= line@.take(i as int));
        if c == QUOTE {
            quoted = !quoted;
        } else if (c == 32 || c == 9 || c == 10) && !quoted {
            if key.len() > 0 || seen_equals {
                let ghost before = pairs@;
                let ghost (k, v) = (key@, value@);
                pairs.push(KeyValue { key, value });
                assert(pairs_view(pairs@) =~= pairs_view(before).push((k, v)));
            }
            key = Vec::new();
            value = Vec::new();
            seen_equals = false;
        } else if c == EQUALS && !seen_equals {
            seen_equals = true;
        } else if seen_equals {
            value.push(c);
        } else {
            key.push(c);
        }
        i += 1;
    }
    assert(line@.take(i as int) =~= line@);
    if key.len() > 0 || seen_equals {
        let ghost before = pairs@;
        pairs.push(KeyValue { key, value });
        assert(pairs_view(pairs@) =~= pairs_view(before).push((key@, value@)));
    }
    pairs
}

} // verus!
