//! How deeply a TOML text is nested, found by one pass over its bytes
//! before the text is handed to the parser.
//!
//! The pass follows the text as the tokenizer of `toml` does: it knows a
//! comment and the four kinds of string, and counts brackets, braces and
//! dots outside of them alone. A flat document of any length has a small
//! nesting.

use vstd::prelude::*;

verus! {

/// The largest nesting of a text that is handed to the parser.
pub const NESTING_LIMIT: usize = 128;

/// Where the pass stands in the text.
#[derive(Clone, Copy, Debug, PartialEq, Eq, Structural)]
pub enum Mode {
    /// Outside of comments and strings.
    Code,
    /// In a comment, up to the end of its line.
    Comment,
    /// After one double quote that opens a string.
    Quote1,
    /// After two double quotes: an empty string, or the start of a
    /// multi-line string.
    Quote2,
    /// In a basic string.
    Basic,
    /// After a backslash in a basic string.
    BasicEscape,
    /// In a multi-line basic string.
    MultiBasic,
    /// After a backslash in a multi-line basic string.
    MultiBasicEscape,
    /// After one double quote in a multi-line basic string.
    MultiBasicQuote1,
    /// After two double quotes in a multi-line basic string.
    MultiBasicQuote2,
    /// After the three double quotes that close a multi-line basic
    /// string, which up to two more may follow.
    MultiBasicClosed,
    /// After four double quotes at the end of a multi-line basic string.
    MultiBasicClosed1,
    /// After one apostrophe that opens a string.
    Apos1,
    /// After two apostrophes: an empty string, or the start of a
    /// multi-line string.
    Apos2,
    /// In a literal string.
    Literal,
    /// In a multi-line literal string.
    MultiLiteral,
    /// After one apostrophe in a multi-line literal string.
    MultiLiteralApos1,
    /// After two apostrophes in a multi-line literal string.
    MultiLiteralApos2,
    /// After the three apostrophes that close a multi-line literal
    /// string, which up to two more may follow.
    MultiLiteralClosed,
    /// After four apostrophes at the end of a multi-line literal string.
    MultiLiteralClosed1,
}

/// What the pass knows after some bytes of the text.
pub struct Scan {
    pub mode: Mode,
    /// The arrays, inline tables and table headers that are open.
    pub depth: nat,
    /// The inline tables among them.
    pub braces: nat,
    /// The dots of keys and headers since the statement began.
    pub dots: nat,
    /// Whether the statement has had no equals sign yet.
    pub in_key: bool,
    /// The largest sum of `depth` and `dots` so far.
    pub peak: nat,
}

/// The pass before the first byte.
pub open spec fn spec_start() -> Scan {
    Scan { mode: Mode::Code, depth: 0, braces: 0, dots: 0, in_key: true, peak: 0 }
}

/// `s` in another mode.
pub open spec fn spec_in_mode(s: Scan, mode: Mode) -> Scan {
    Scan { mode, depth: s.depth, braces: s.braces, dots: s.dots, in_key: s.in_key, peak: s.peak }
}

/// `s` with the peak raised to the sum of its depth and dots.
pub open spec fn spec_with_peak(s: Scan) -> Scan {
    Scan {
        mode: s.mode,
        depth: s.depth,
        braces: s.braces,
        dots: s.dots,
        in_key: s.in_key,
        peak: if s.depth + s.dots > s.peak {
            s.depth + s.dots
        } else {
            s.peak
        },
    }
}

/// A byte outside of comments and strings. A bracket or a brace opens or
/// closes one level; a dot counts where it can part a key: before the
/// equals sign of the statement, or inside an inline table; a line end
/// outside of every bracket begins a statement.
pub open spec fn spec_code_step(s: Scan, byte: u8) -> Scan {
    let lower: nat = if s.depth > 0 {
        (s.depth - 1) as nat
    } else {
        0
    };
    if byte == 0x23 {
        spec_in_mode(s, Mode::Comment)
    } else if byte == 0x22 {
        spec_in_mode(s, Mode::Quote1)
    } else if byte == 0x27 {
        spec_in_mode(s, Mode::Apos1)
    } else if byte == 0x5b {
        spec_with_peak(
            Scan {
                mode: Mode::Code,
                depth: s.depth + 1,
                braces: s.braces,
                dots: s.dots,
                in_key: s.in_key,
                peak: s.peak,
            },
        )
    } else if byte == 0x7b {
        spec_with_peak(
            Scan {
                mode: Mode::Code,
                depth: s.depth + 1,
                braces: s.braces + 1,
                dots: s.dots,
                in_key: s.in_key,
                peak: s.peak,
            },
        )
    } else if byte == 0x5d {
        Scan {
            mode: Mode::Code,
            depth: lower,
            braces: if s.braces > lower {
                lower
            } else {
                s.braces
            },
            dots: s.dots,
            in_key: s.in_key,
            peak: s.peak,
        }
    } else if byte == 0x7d {
        Scan {
            mode: Mode::Code,
            depth: lower,
            braces: if s.braces > 0 {
                (s.braces - 1) as nat
            } else {
                0
            },
            dots: s.dots,
            in_key: s.in_key,
            peak: s.peak,
        }
    } else if byte == 0x3d {
        Scan {
            mode: Mode::Code,
            depth: s.depth,
            braces: s.braces,
            dots: s.dots,
            in_key: false,
            peak: s.peak,
        }
    } else if byte == 0x2e && (s.in_key || s.braces > 0) {
        spec_with_peak(
            Scan {
                mode: Mode::Code,
                depth: s.depth,
                braces: s.braces,
                dots: s.dots + 1,
                in_key: s.in_key,
                peak: s.peak,
            },
        )
    } else if byte == 0x0a && s.depth == 0 {
        Scan { mode: Mode::Code, depth: 0, braces: 0, dots: 0, in_key: true, peak: s.peak }
    } else {
        spec_in_mode(s, Mode::Code)
    }
}

/// A byte of a basic string: a backslash takes the next byte with it, a
/// double quote ends the string, and so does the end of the line.
pub open spec fn spec_basic_step(s: Scan, byte: u8) -> Scan {
    if byte == 0x5c {
        spec_in_mode(s, Mode::BasicEscape)
    } else if byte == 0x22 {
        spec_in_mode(s, Mode::Code)
    } else if byte == 0x0a {
        spec_code_step(s, byte)
    } else {
        spec_in_mode(s, Mode::Basic)
    }
}

/// A byte of a multi-line basic string.
pub open spec fn spec_multi_basic_step(s: Scan, byte: u8) -> Scan {
    if byte == 0x5c {
        spec_in_mode(s, Mode::MultiBasicEscape)
    } else if byte == 0x22 {
        spec_in_mode(s, Mode::MultiBasicQuote1)
    } else {
        spec_in_mode(s, Mode::MultiBasic)
    }
}

/// A byte of a literal string: an apostrophe ends it, and so does the
/// end of the line.
pub open spec fn spec_literal_step(s: Scan, byte: u8) -> Scan {
    if byte == 0x27 {
        spec_in_mode(s, Mode::Code)
    } else if byte == 0x0a {
        spec_code_step(s, byte)
    } else {
        spec_in_mode(s, Mode::Literal)
    }
}

/// A byte of a multi-line literal string.
pub open spec fn spec_multi_literal_step(s: Scan, byte: u8) -> Scan {
    if byte == 0x27 {
        spec_in_mode(s, Mode::MultiLiteralApos1)
    } else {
        spec_in_mode(s, Mode::MultiLiteral)
    }
}

/// The pass after one more byte.
pub open spec fn spec_step(s: Scan, byte: u8) -> Scan {
    match s.mode {
        Mode::Code => spec_code_step(s, byte),
        Mode::Comment => if byte < 0x20 && byte != 0x09 {
            spec_code_step(s, byte)
        } else {
            s
        },
        Mode::Quote1 => if byte == 0x22 {
            spec_in_mode(s, Mode::Quote2)
        } else {
            spec_basic_step(s, byte)
        },
        Mode::Quote2 => if byte == 0x22 {
            spec_in_mode(s, Mode::MultiBasic)
        } else {
            spec_code_step(s, byte)
        },
        Mode::Basic => spec_basic_step(s, byte),
        Mode::BasicEscape => spec_in_mode(s, Mode::Basic),
        Mode::MultiBasic => spec_multi_basic_step(s, byte),
        Mode::MultiBasicEscape => spec_in_mode(s, Mode::MultiBasic),
        Mode::MultiBasicQuote1 => if byte == 0x22 {
            spec_in_mode(s, Mode::MultiBasicQuote2)
        } else {
            spec_multi_basic_step(s, byte)
        },
        Mode::MultiBasicQuote2 => if byte == 0x22 {
            spec_in_mode(s, Mode::MultiBasicClosed)
        } else {
            spec_multi_basic_step(s, byte)
        },
        Mode::MultiBasicClosed => if byte == 0x22 {
            spec_in_mode(s, Mode::MultiBasicClosed1)
        } else {
            spec_code_step(s, byte)
        },
        Mode::MultiBasicClosed1 => if byte == 0x22 {
            spec_in_mode(s, Mode::Code)
        } else {
            spec_code_step(s, byte)
        },
        Mode::Apos1 => if byte == 0x27 {
            spec_in_mode(s, Mode::Apos2)
        } else {
            spec_literal_step(s, byte)
        },
        Mode::Apos2 => if byte == 0x27 {
            spec_in_mode(s, Mode::MultiLiteral)
        } else {
            spec_code_step(s, byte)
        },
        Mode::Literal => spec_literal_step(s, byte),
        Mode::MultiLiteral => spec_multi_literal_step(s, byte),
        Mode::MultiLiteralApos1 => if byte == 0x27 {
            spec_in_mode(s, Mode::MultiLiteralApos2)
        } else {
            spec_multi_literal_step(s, byte)
        },
        Mode::MultiLiteralApos2 => if byte == 0x27 {
            spec_in_mode(s, Mode::MultiLiteralClosed)
        } else {
            spec_multi_literal_step(s, byte)
        },
        Mode::MultiLiteralClosed => if byte == 0x27 {
            spec_in_mode(s, Mode::MultiLiteralClosed1)
        } else {
            spec_code_step(s, byte)
        },
        Mode::MultiLiteralClosed1 => if byte == 0x27 {
            spec_in_mode(s, Mode::Code)
        } else {
            spec_code_step(s, byte)
        },
    }
}

/// The pass after the first `n` bytes.
pub open spec fn spec_scan(bytes: Seq<u8>, n: nat) -> Scan
    decreases n,
{
    if n == 0 {
        spec_start()
    } else {
        spec_step(spec_scan(bytes, (n - 1) as nat), bytes[n - 1])
    }
}

/// The nesting of a text: the largest number, at any place in it, of open
/// arrays, inline tables and headers together with the dots of keys and
/// headers of the statement.
pub open spec fn spec_text_nesting(text: Seq<char>) -> nat {
    spec_scan(vstd::utf8::encode_utf8(text), vstd::utf8::encode_utf8(text).len()).peak
}

/// Whether the counts of a pass are in order: the inline tables are
/// among the open levels, and the peak is no less than depth and dots.
pub open spec fn spec_in_order(s: Scan) -> bool {
    s.braces <= s.depth && s.depth + s.dots <= s.peak
}

/// A step keeps the counts in order and never lowers the peak.
pub proof fn lemma_step_keeps_order(s: Scan, byte: u8)
    requires
        spec_in_order(s),
    ensures
        spec_in_order(spec_step(s, byte)),
        spec_step(s, byte).peak >= s.peak,
{
}

/// The counts are in order after every prefix.
pub proof fn lemma_scan_in_order(bytes: Seq<u8>, n: nat)
    ensures
        spec_in_order(spec_scan(bytes, n)),
    decreases n,
{
    if n > 0 {
        lemma_scan_in_order(bytes, (n - 1) as nat);
        lemma_step_keeps_order(spec_scan(bytes, (n - 1) as nat), bytes[n - 1]);
    }
}

/// The peak after a longer prefix is no lower.
pub proof fn lemma_peak_grows(bytes: Seq<u8>, n: nat, m: nat)
    requires
        n <= m,
    ensures
        spec_scan(bytes, n).peak <= spec_scan(bytes, m).peak,
    decreases m,
{
    if n < m {
        lemma_peak_grows(bytes, n, (m - 1) as nat);
        lemma_scan_in_order(bytes, (m - 1) as nat);
        lemma_step_keeps_order(spec_scan(bytes, (m - 1) as nat), bytes[m - 1]);
    }
}

/// The pass as it runs, with counts that stay small.
#[derive(Clone, Copy)]
struct Scanner {
    mode: Mode,
    depth: usize,
    braces: usize,
    dots: usize,
    in_key: bool,
    peak: usize,
}

impl View for Scanner {
    type V = Scan;

    closed spec fn view(&self) -> Scan {
        Scan {
            mode: self.mode,
            depth: self.depth as nat,
            braces: self.braces as nat,
            dots: self.dots as nat,
            in_key: self.in_key,
            peak: self.peak as nat,
        }
    }
}

impl Scanner {
    /// Whether the counts are in order and within the limit.
    spec fn small(&self) -> bool {
        spec_in_order(self@) && self.peak <= NESTING_LIMIT
    }

    fn in_mode(self, mode: Mode) -> (t: Scanner)
        ensures
            t@ == spec_in_mode(self@, mode),
    {
        Scanner {
            mode,
            depth: self.depth,
            braces: self.braces,
            dots: self.dots,
            in_key: self.in_key,
            peak: self.peak,
        }
    }

    fn with_peak(self) -> (t: Scanner)
        requires
            self.depth <= NESTING_LIMIT + 1,
            self.dots <= NESTING_LIMIT + 1,
        ensures
            t@ == spec_with_peak(self@),
    {
        let sum = self.depth + self.dots;
        Scanner {
            mode: self.mode,
            depth: self.depth,
            braces: self.braces,
            dots: self.dots,
            in_key: self.in_key,
            peak: if sum > self.peak {
                sum
            } else {
                self.peak
            },
        }
    }

    fn code_step(self, byte: u8) -> (t: Scanner)
        requires
            self.small(),
        ensures
            t@ == spec_code_step(self@, byte),
    {
        let lower: usize = if self.depth > 0 {
            self.depth - 1
        } else {
            0
        };
        if byte == 0x23 {
            self.in_mode(Mode::Comment)
        } else if byte == 0x22 {
            self.in_mode(Mode::Quote1)
        } else if byte == 0x27 {
            self.in_mode(Mode::Apos1)
        } else if byte == 0x5b {
            Scanner {
                mode: Mode::Code,
                depth: self.depth + 1,
                braces: self.braces,
                dots: self.dots,
                in_key: self.in_key,
                peak: self.peak,
            }.with_peak()
        } else if byte == 0x7b {
            Scanner {
                mode: Mode::Code,
                depth: self.depth + 1,
                braces: self.braces + 1,
                dots: self.dots,
                in_key: self.in_key,
                peak: self.peak,
            }.with_peak()
        } else if byte == 0x5d {
            Scanner {
                mode: Mode::Code,
                depth: lower,
                braces: if self.braces > lower {
                    lower
                } else {
                    self.braces
                },
                dots: self.dots,
                in_key: self.in_key,
                peak: self.peak,
            }
        } else if byte == 0x7d {
            Scanner {
                mode: Mode::Code,
                depth: lower,
                braces: if self.braces > 0 {
                    self.braces - 1
                } else {
                    0
                },
                dots: self.dots,
                in_key: self.in_key,
                peak: self.peak,
            }
        } else if byte == 0x3d {
            Scanner {
                mode: Mode::Code,
                depth: self.depth,
                braces: self.braces,
                dots: self.dots,
                in_key: false,
                peak: self.peak,
            }
        } else if byte == 0x2e && (self.in_key || self.braces > 0) {
            Scanner {
                mode: Mode::Code,
                depth: self.depth,
                braces: self.braces,
                dots: self.dots + 1,
                in_key: self.in_key,
                peak: self.peak,
            }.with_peak()
        } else if byte == 0x0a && self.depth == 0 {
            Scanner { mode: Mode::Code, depth: 0, braces: 0, dots: 0, in_key: true, peak: self.peak }
        } else {
            self.in_mode(Mode::Code)
        }
    }

    fn basic_step(self, byte: u8) -> (t: Scanner)
        requires
            self.small(),
        ensures
            t@ == spec_basic_step(self@, byte),
    {
        if byte == 0x5c {
            self.in_mode(Mode::BasicEscape)
        } else if byte == 0x22 {
            self.in_mode(Mode::Code)
        } else if byte == 0x0a {
            self.code_step(byte)
        } else {
            self.in_mode(Mode::Basic)
        }
    }

    fn multi_basic_step(self, byte: u8) -> (t: Scanner)
        ensures
            t@ == spec_multi_basic_step(self@, byte),
    {
        if byte == 0x5c {
            self.in_mode(Mode::MultiBasicEscape)
        } else if byte == 0x22 {
            self.in_mode(Mode::MultiBasicQuote1)
        } else {
            self.in_mode(Mode::MultiBasic)
        }
    }

    fn literal_step(self, byte: u8) -> (t: Scanner)
        requires
            self.small(),
        ensures
            t@ == spec_literal_step(self@, byte),
    {
        if byte == 0x27 {
            self.in_mode(Mode::Code)
        } else if byte == 0x0a {
            self.code_step(byte)
        } else {
            self.in_mode(Mode::Literal)
        }
    }

    fn multi_literal_step(self, byte: u8) -> (t: Scanner)
        ensures
            t@ == spec_multi_literal_step(self@, byte),
    {
        if byte == 0x27 {
            self.in_mode(Mode::MultiLiteralApos1)
        } else {
            self.in_mode(Mode::MultiLiteral)
        }
    }

    fn step(self, byte: u8) -> (t: Scanner)
        requires
            self.small(),
        ensures
            t@ == spec_step(self@, byte),
    {
        match self.mode {
            Mode::Code => self.code_step(byte),
            Mode::Comment => if byte < 0x20 && byte != 0x09 {
                self.code_step(byte)
            } else {
                self
            },
            Mode::Quote1 => if byte == 0x22 {
                self.in_mode(Mode::Quote2)
            } else {
                self.basic_step(byte)
            },
            Mode::Quote2 => if byte == 0x22 {
                self.in_mode(Mode::MultiBasic)
            } else {
                self.code_step(byte)
            },
            Mode::Basic => self.basic_step(byte),
            Mode::BasicEscape => self.in_mode(Mode::Basic),
            Mode::MultiBasic => self.multi_basic_step(byte),
            Mode::MultiBasicEscape => self.in_mode(Mode::MultiBasic),
            Mode::MultiBasicQuote1 => if byte == 0x22 {
                self.in_mode(Mode::MultiBasicQuote2)
            } else {
                self.multi_basic_step(byte)
            },
            Mode::MultiBasicQuote2 => if byte == 0x22 {
                self.in_mode(Mode::MultiBasicClosed)
            } else {
                self.multi_basic_step(byte)
            },
            Mode::MultiBasicClosed => if byte == 0x22 {
                self.in_mode(Mode::MultiBasicClosed1)
            } else {
                self.code_step(byte)
            },
            Mode::MultiBasicClosed1 => if byte == 0x22 {
                self.in_mode(Mode::Code)
            } else {
                self.code_step(byte)
            },
            Mode::Apos1 => if byte == 0x27 {
                self.in_mode(Mode::Apos2)
            } else {
                self.literal_step(byte)
            },
            Mode::Apos2 => if byte == 0x27 {
                self.in_mode(Mode::MultiLiteral)
            } else {
                self.code_step(byte)
            },
            Mode::Literal => self.literal_step(byte),
            Mode::MultiLiteral => self.multi_literal_step(byte),
            Mode::MultiLiteralApos1 => if byte == 0x27 {
                self.in_mode(Mode::MultiLiteralApos2)
            } else {
                self.multi_literal_step(byte)
            },
            Mode::MultiLiteralApos2 => if byte == 0x27 {
                self.in_mode(Mode::MultiLiteralClosed)
            } else {
                self.multi_literal_step(byte)
            },
            Mode::MultiLiteralClosed => if byte == 0x27 {
                self.in_mode(Mode::MultiLiteralClosed1)
            } else {
                self.code_step(byte)
            },
            Mode::MultiLiteralClosed1 => if byte == 0x27 {
                self.in_mode(Mode::Code)
            } else {
                self.code_step(byte)
            },
        }
    }
}

/// Whether the nesting of a text is within the limit.
pub fn nesting_within_limit(text: &str) -> (within: bool)
    ensures
        within == (spec_text_nesting(text@) <= NESTING_LIMIT),
{
    let bytes = text.as_bytes();
    let mut scanner = Scanner {
        mode: Mode::Code,
        depth: 0,
        braces: 0,
        dots: 0,
        in_key: true,
        peak: 0,
    };
    let mut i: usize = 0;
    while i < bytes.len()
        invariant
            i <= bytes@.len(),
            bytes@ == vstd::utf8::encode_utf8(text@),
            scanner@ == spec_scan(bytes@, i as nat),
            scanner.small(),
        decreases bytes@.len() - i,
    {
        proof {
            lemma_step_keeps_order(scanner@, bytes@[i as int]);
        }
        scanner = scanner.step(bytes[i]);
        i = i + 1;
        if scanner.peak > NESTING_LIMIT {
            proof {
                lemma_peak_grows(bytes@, i as nat, bytes@.len());
            }
            return false;
        }
    }
    true
}

} // verus!
