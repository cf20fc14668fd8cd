//! How deeply a TOML text may nest before it is handed to the parser.
//!
//! The `toml` parser calls itself once for each level of nested arrays and
//! inline tables, once for each part of a dotted key, and once for each part
//! of a table header; the values it builds are as deep, and are walked and
//! dropped by recursion too. None of this has a limit of its own, so a text
//! that nests deeply enough exhausts the stack.
//!
//! The scan below follows the parser's tokenizer through strings (one-line
//! and multi-line, basic and literal) and comments, and outside them keeps an
//! estimate of the depth reached: the dots of the current table header, and
//! for each open array or inline table one level plus the dots of the key (or
//! value) that opened it, plus the dots read since the last separator. The
//! depth of the parser's recursion exceeds this estimate by a few levels at
//! most (the root, the last key part, an array of tables).
//! The scan runs over the UTF-8 bytes: every byte it looks for is ASCII, and
//! no byte of a multi-byte character is.
use vstd::prelude::*;
use vstd::string::StringSliceAdditionalSpecFns;

verus! {

/// The deepest estimate a text may reach to be handed to the parser.
pub const MAX_DEPTH: u64 = 128;

pub const QUOTE: u8 = 0x22;

pub const APOSTROPHE: u8 = 0x27;

pub const HASH: u8 = 0x23;

pub const BACKSLASH: u8 = 0x5c;

pub const NEWLINE: u8 = 0x0a;

pub const SPACE: u8 = 0x20;

pub const TAB: u8 = 0x09;

pub const DOT: u8 = 0x2e;

pub const COMMA: u8 = 0x2c;

pub const OPEN_BRACKET: u8 = 0x5b;

pub const CLOSE_BRACKET: u8 = 0x5d;

pub const OPEN_BRACE: u8 = 0x7b;

pub const CLOSE_BRACE: u8 = 0x7d;

/// Where the tokenizer stands. `Open1`/`Open2` follow one or two opening
/// quotes (a third makes the string multi-line); `Close1`/`Close2` follow one
/// or two quotes inside a multi-line string (a third closes it); `Close3` and
/// `Close4` follow a closing triple, after which up to two more quotes still
/// belong to the string.
#[derive(Debug, Clone, Copy, PartialEq, Eq, Structural)]
pub enum Lex {
    Out,
    Comment,
    BasicOpen1,
    BasicOpen2,
    Basic,
    BasicEscape,
    MlBasic,
    MlBasicEscape,
    MlBasicClose1,
    MlBasicClose2,
    MlBasicClose3,
    MlBasicClose4,
    LiteralOpen1,
    LiteralOpen2,
    Literal,
    MlLiteral,
    MlLiteralClose1,
    MlLiteralClose2,
    MlLiteralClose3,
    MlLiteralClose4,
}

pub open spec fn out_lex(c: u8) -> Lex {
    if c == QUOTE {
        Lex::BasicOpen1
    } else if c == APOSTROPHE {
        Lex::LiteralOpen1
    } else if c == HASH {
        Lex::Comment
    } else {
        Lex::Out
    }
}

pub open spec fn basic_lex(c: u8) -> Lex {
    if c == BACKSLASH {
        Lex::BasicEscape
    } else if c == QUOTE || c == NEWLINE {
        Lex::Out
    } else {
        Lex::Basic
    }
}

pub open spec fn ml_basic_lex(c: u8) -> Lex {
    if c == BACKSLASH {
        Lex::MlBasicEscape
    } else if c == QUOTE {
        Lex::MlBasicClose1
    } else {
        Lex::MlBasic
    }
}

pub open spec fn literal_lex(c: u8) -> Lex {
    if c == APOSTROPHE || c == NEWLINE {
        Lex::Out
    } else {
        Lex::Literal
    }
}

pub open spec fn ml_literal_lex(c: u8) -> Lex {
    if c == APOSTROPHE {
        Lex::MlLiteralClose1
    } else {
        Lex::MlLiteral
    }
}

/// The state after byte `c`.
pub open spec fn next_lex(st: Lex, c: u8) -> Lex {
    match st {
        Lex::Out => out_lex(c),
        Lex::Comment => if c == NEWLINE {
            Lex::Out
        } else {
            Lex::Comment
        },
        Lex::BasicOpen1 => if c == QUOTE {
            Lex::BasicOpen2
        } else {
            basic_lex(c)
        },
        Lex::BasicOpen2 => if c == QUOTE {
            Lex::MlBasic
        } else {
            out_lex(c)
        },
        Lex::Basic => basic_lex(c),
        Lex::BasicEscape => Lex::Basic,
        Lex::MlBasic => ml_basic_lex(c),
        Lex::MlBasicEscape => Lex::MlBasic,
        Lex::MlBasicClose1 => if c == QUOTE {
            Lex::MlBasicClose2
        } else {
            ml_basic_lex(c)
        },
        Lex::MlBasicClose2 => if c == QUOTE {
            Lex::MlBasicClose3
        } else {
            ml_basic_lex(c)
        },
        Lex::MlBasicClose3 => if c == QUOTE {
            Lex::MlBasicClose4
        } else {
            out_lex(c)
        },
        Lex::MlBasicClose4 => if c == QUOTE {
            Lex::Out
        } else {
            out_lex(c)
        },
        Lex::LiteralOpen1 => if c == APOSTROPHE {
            Lex::LiteralOpen2
        } else {
            literal_lex(c)
        },
        Lex::LiteralOpen2 => if c == APOSTROPHE {
            Lex::MlLiteral
        } else {
            out_lex(c)
        },
        Lex::Literal => literal_lex(c),
        Lex::MlLiteral => ml_literal_lex(c),
        Lex::MlLiteralClose1 => if c == APOSTROPHE {
            Lex::MlLiteralClose2
        } else {
            ml_literal_lex(c)
        },
        Lex::MlLiteralClose2 => if c == APOSTROPHE {
            Lex::MlLiteralClose3
        } else {
            ml_literal_lex(c)
        },
        Lex::MlLiteralClose3 => if c == APOSTROPHE {
            Lex::MlLiteralClose4
        } else {
            out_lex(c)
        },
        Lex::MlLiteralClose4 => if c == APOSTROPHE {
            Lex::Out
        } else {
            out_lex(c)
        },
    }
}

/// Byte `c`, read in state `st`, stands outside any string and comment (a
/// newline that ends a comment does).
pub open spec fn structural(st: Lex, c: u8) -> bool {
    match st {
        Lex::Out => true,
        Lex::Comment => c == NEWLINE,
        Lex::BasicOpen2 | Lex::MlBasicClose3 | Lex::MlBasicClose4 => c != QUOTE,
        Lex::LiteralOpen2 | Lex::MlLiteralClose3 | Lex::MlLiteralClose4 => c != APOSTROPHE,
        _ => false,
    }
}

/// The scan's state: the tokenizer's state, the dots of the current table
/// header, what each open array or inline table keeps (the dots read at the
/// enclosing level when it opened), the dots read at the current level since
/// the last separator, whether a table header is being read, and whether only
/// blanks precede on the current top-level line.
pub type Scan = (Lex, nat, Seq<nat>, nat, bool, bool);

pub open spec fn sum(s: Seq<nat>) -> nat
    decreases s.len(),
{
    if s.len() == 0 {
        0
    } else {
        sum(s.drop_last()) + s.last()
    }
}

/// The depth estimate of a scan state.
pub open spec fn estimate(s: Scan) -> nat {
    s.1 + sum(s.2) + s.2.len() + s.3
}

pub open spec fn is_opener(c: u8) -> bool {
    c == OPEN_BRACKET || c == OPEN_BRACE
}

pub open spec fn is_closer(c: u8) -> bool {
    c == CLOSE_BRACKET || c == CLOSE_BRACE
}

/// The scan's state after byte `c`.
pub open spec fn next_scan(s: Scan, c: u8) -> Scan {
    let (st, hdr, lv, cur, header, start) = s;
    let st2 = next_lex(st, c);
    if !structural(st, c) {
        (st2, hdr, lv, cur, header, false)
    } else if header {
        if c == DOT {
            (st2, hdr + 1, lv, cur, true, false)
        } else if c == NEWLINE {
            (st2, hdr, lv, cur, false, true)
        } else {
            (st2, hdr, lv, cur, true, false)
        }
    } else if c == OPEN_BRACKET && lv.len() == 0 && start {
        (st2, 0, lv, cur, true, false)
    } else if is_opener(c) {
        (st2, hdr, lv.push(cur), 0, false, false)
    } else if is_closer(c) {
        if lv.len() > 0 {
            (st2, hdr, lv.drop_last(), lv.last(), false, false)
        } else {
            (st2, hdr, lv, cur, false, false)
        }
    } else if c == DOT {
        (st2, hdr, lv, cur + 1, false, false)
    } else if c == COMMA {
        (st2, hdr, lv, 0, false, false)
    } else if c == NEWLINE {
        if lv.len() == 0 {
            (st2, hdr, lv, 0, false, true)
        } else {
            (st2, hdr, lv, cur, false, false)
        }
    } else if c == SPACE || c == TAB {
        (st2, hdr, lv, cur, false, start)
    } else {
        (st2, hdr, lv, cur, false, false)
    }
}

/// The scan's state after reading `b`.
pub open spec fn scan(b: Seq<u8>) -> Scan
    decreases b.len(),
{
    if b.len() == 0 {
        (Lex::Out, 0, Seq::empty(), 0, false, true)
    } else {
        next_scan(scan(b.drop_last()), b.last())
    }
}

/// The estimate passes the limit somewhere in the text.
pub open spec fn too_deep(b: Seq<u8>) -> bool {
    exists|k: int| 0 <= k <= b.len() && estimate(#[trigger] scan(b.take(k))) > MAX_DEPTH
}

fn out_step(c: u8) -> (r: Lex)
    ensures
        r == out_lex(c),
{
    if c == QUOTE {
        Lex::BasicOpen1
    } else if c == APOSTROPHE {
        Lex::LiteralOpen1
    } else if c == HASH {
        Lex::Comment
    } else {
        Lex::Out
    }
}

fn basic_step(c: u8) -> (r: Lex)
    ensures
        r == basic_lex(c),
{
    if c == BACKSLASH {
        Lex::BasicEscape
    } else if c == QUOTE || c == NEWLINE {
        Lex::Out
    } else {
        Lex::Basic
    }
}

fn ml_basic_step(c: u8) -> (r: Lex)
    ensures
        r == ml_basic_lex(c),
{
    if c == BACKSLASH {
        Lex::MlBasicEscape
    } else if c == QUOTE {
        Lex::MlBasicClose1
    } else {
        Lex::MlBasic
    }
}

fn literal_step(c: u8) -> (r: Lex)
    ensures
        r == literal_lex(c),
{
    if c == APOSTROPHE || c == NEWLINE {
        Lex::Out
    } else {
        Lex::Literal
    }
}

fn ml_literal_step(c: u8) -> (r: Lex)
    ensures
        r == ml_literal_lex(c),
{
    if c == APOSTROPHE {
        Lex::MlLiteralClose1
    } else {
        Lex::MlLiteral
    }
}

fn lex_step(st: Lex, c: u8) -> (r: Lex)
    ensures
        r == next_lex(st, c),
{
    match st {
        Lex::Out => out_step(c),
        Lex::Comment => if c == NEWLINE {
            Lex::Out
        } else {
            Lex::Comment
        },
        Lex::BasicOpen1 => if c == QUOTE {
            Lex::BasicOpen2
        } else {
            basic_step(c)
        },
        Lex::BasicOpen2 => if c == QUOTE {
            Lex::MlBasic
        } else {
            out_step(c)
        },
        Lex::Basic => basic_step(c),
        Lex::BasicEscape => Lex::Basic,
        Lex::MlBasic => ml_basic_step(c),
        Lex::MlBasicEscape => Lex::MlBasic,
        Lex::MlBasicClose1 => if c == QUOTE {
            Lex::MlBasicClose2
        } else {
            ml_basic_step(c)
        },
        Lex::MlBasicClose2 => if c == QUOTE {
            Lex::MlBasicClose3
        } else {
            ml_basic_step(c)
        },
        Lex::MlBasicClose3 => if c == QUOTE {
            Lex::MlBasicClose4
        } else {
            out_step(c)
        },
        Lex::MlBasicClose4 => if c == QUOTE {
            Lex::Out
        } else {
            out_step(c)
        },
        Lex::LiteralOpen1 => if c == APOSTROPHE {
            Lex::LiteralOpen2
        } else {
            literal_step(c)
        },
        Lex::LiteralOpen2 => if c == APOSTROPHE {
            Lex::MlLiteral
        } else {
            out_step(c)
        },
        Lex::Literal => literal_step(c),
        Lex::MlLiteral => ml_literal_step(c),
        Lex::MlLiteralClose1 => if c == APOSTROPHE {
            Lex::MlLiteralClose2
        } else {
            ml_literal_step(c)
        },
        Lex::MlLiteralClose2 => if c == APOSTROPHE {
            Lex::MlLiteralClose3
        } else {
            ml_literal_step(c)
        },
        Lex::MlLiteralClose3 => if c == APOSTROPHE {
            Lex::MlLiteralClose4
        } else {
            out_step(c)
        },
        Lex::MlLiteralClose4 => if c == APOSTROPHE {
            Lex::Out
        } else {
            out_step(c)
        },
    }
}

fn is_structural(st: Lex, c: u8) -> (r: bool)
    ensures
        r == structural(st, c),
{
    match st {
        Lex::Out => true,
        Lex::Comment => c == NEWLINE,
        Lex::BasicOpen2 | Lex::MlBasicClose3 | Lex::MlBasicClose4 => c != QUOTE,
        Lex::LiteralOpen2 | Lex::MlLiteralClose3 | Lex::MlLiteralClose4 => c != APOSTROPHE,
        _ => false,
    }
}

/// Whether the text passes `MAX_DEPTH` by the estimate above.
pub fn nests_too_deep(text: &str) -> (r: bool)
    ensures
        r == too_deep(text.spec_bytes()),
{
    let b = text.as_bytes();
    let ghost bs = b@;
    let n = b.len();
    let mut st = Lex::Out;
    let mut hdr: u64 = 0;
    let mut levels: Vec<u64> = Vec::new();
    let mut total: u64 = 0;
    let mut cur: u64 = 0;
    let mut header = false;
    let mut start = true;
    let ghost mut lv: Seq<nat> = Seq::empty();
    let mut i: usize = 0;
    assert(bs.take(0) =~= Seq::<u8>::empty());
    while i < n
        invariant
            bs == b@,
            bs == text.spec_bytes(),
            n == bs.len(),
            i <= n,
            scan(bs.take(i as int)) == (st, hdr as nat, lv, cur as nat, header, start),
            levels@.len() == lv.len(),
            forall|j: int| 0 <= j < lv.len() ==> lv[j] == #[trigger] levels@[j] as nat,
            total as nat == sum(lv),
            estimate(scan(bs.take(i as int))) <= MAX_DEPTH,
            forall|k: int| 0 <= k <= i ==> estimate(#[trigger] scan(bs.take(k))) <= MAX_DEPTH,
        decreases n - i,
    {
        let c = b[i];
        assert(bs.take(i + 1).drop_last() =~= bs.take(i as int));
        assert(bs.take(i + 1).last() == c);
        let ghost before = lv;
        if !is_structural(st, c) {
            start = false;
        } else if header {
            if c == DOT {
                hdr = hdr + 1;
                start = false;
            } else if c == NEWLINE {
                header = false;
                start = true;
            } else {
                start = false;
            }
        } else if c == OPEN_BRACKET && levels.len() == 0 && start {
            hdr = 0;
            header = true;
            start = false;
        } else if c == OPEN_BRACKET || c == OPEN_BRACE {
            levels.push(cur);
            total = total + cur;
            proof {
                lv = lv.push(cur as nat);
                assert(lv.drop_last() =~= before);
            }
            cur = 0;
            start = false;
        } else if c == CLOSE_BRACKET || c == CLOSE_BRACE {
            if levels.len() > 0 {
                let last = levels.pop().unwrap();
                proof {
                    assert(last as nat == before.last());
                    lv = lv.drop_last();
                }
                total = total - last;
                cur = last;
            }
            start = false;
        } else if c == DOT {
            cur = cur + 1;
            start = false;
        } else if c == COMMA {
            cur = 0;
            start = false;
        } else if c == NEWLINE {
            if levels.len() == 0 {
                cur = 0;
                start = true;
            } else {
                start = false;
            }
        } else if c == SPACE || c == TAB {
        } else {
            start = false;
        }
        st = lex_step(st, c);
        i = i + 1;
        assert(scan(bs.take(i as int)) == (st, hdr as nat, lv, cur as nat, header, start));
        if hdr + total + (levels.len() as u64) + cur > MAX_DEPTH {
            assert(estimate(scan(bs.take(i as int))) > MAX_DEPTH);
            return true;
        }
    }
    assert(bs.take(n as int) =~= bs);
    false
}

} // verus!
