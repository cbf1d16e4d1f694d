//! Screening of configuration text before it is handed to the KDL parser.
//!
//! The parser does not cope with every text. On a type annotation that holds
//! a reserved word, as in `(true)`, it fails while it builds its error
//! report. It descends once for every children block inside another and for
//! every piece of a block comment, so deep nesting exhausts the stack. It
//! reads a slash-dashed construct again at every slash-dashed construct that
//! encloses it, which multiplies the time with every level.
//!
//! The screen walks over the bytes of a text as the parser's lexical rules
//! divide it: strings, raw strings, line comments and block comments are told
//! from the rest, and only what stands outside them counts as braces,
//! slash-dashes and annotations. A text is turned away only where it holds a
//! reserved word as annotation, or nests blocks, comment pieces or
//! slash-dashes beyond the limits below.

use vstd::prelude::*;
use vstd::string::StringSliceAdditionalSpecFns;

verus! {

/// The deepest that children blocks may stand inside one another.
pub const MAX_BLOCK_DEPTH: usize = 24;

/// The most pieces that one block comment may be made of: a piece is an
/// asterisk, a slash, or a run of other bytes.
pub const MAX_COMMENT_PIECES: usize = 256;

/// The pieces that a block comment inside another counts for.
pub const NESTED_COMMENT_PIECES: usize = 3;

/// The deepest that slash-dashed constructs may stand inside one another.
pub const MAX_SLASHDASH_NESTING: usize = 4;

/// The byte at position `at`, or 0 beyond the end.
pub open spec fn byte_at(bytes: Seq<u8>, at: int) -> u8 {
    if 0 <= at < bytes.len() {
        bytes[at]
    } else {
        0
    }
}

/// The length of the line break that begins at `at`, or 0 where none does:
/// carriage return with line feed, which is one break, carriage return,
/// line feed, form feed, U+0085, U+2028 and U+2029.
pub open spec fn newline_len(bytes: Seq<u8>, at: int) -> int {
    let b0 = byte_at(bytes, at);
    let b1 = byte_at(bytes, at + 1);
    let b2 = byte_at(bytes, at + 2);
    if b0 == 0x0d && b1 == 0x0a {
        2
    } else if b0 == 0x0a || b0 == 0x0d || b0 == 0x0c {
        1
    } else if b0 == 0xc2 && b1 == 0x85 {
        2
    } else if b0 == 0xe2 && b1 == 0x80 && (b2 == 0xa8 || b2 == 0xa9) {
        3
    } else {
        0
    }
}

/// The length of the space that begins at `at`, or 0 where none does: space,
/// tab, U+00A0, U+1680, U+2000 to U+200A, U+202F, U+205F, U+3000 and U+FEFF.
pub open spec fn space_len(bytes: Seq<u8>, at: int) -> int {
    let b0 = byte_at(bytes, at);
    let b1 = byte_at(bytes, at + 1);
    let b2 = byte_at(bytes, at + 2);
    if b0 == 0x20 || b0 == 0x09 {
        1
    } else if b0 == 0xc2 && b1 == 0xa0 {
        2
    } else if (b0 == 0xe1 && b1 == 0x9a && b2 == 0x80) || (b0 == 0xe2 && b1 == 0x80 && (0x80 <= b2
        <= 0x8a || b2 == 0xaf)) || (b0 == 0xe2 && b1 == 0x81 && b2 == 0x9f) || (b0 == 0xe3 && b1
        == 0x80 && b2 == 0x80) || (b0 == 0xef && b1 == 0xbb && b2 == 0xbf) {
        3
    } else {
        0
    }
}

/// Whether `b` is an ASCII byte that cannot stand in a bare identifier: a
/// control, the space, or one of `\ / ( ) { } < > ; [ ] = , "`.
pub open spec fn ends_identifier(b: u8) -> bool {
    b <= 0x20 || b == 0x5c || b == 0x2f || b == 0x28 || b == 0x29 || b == 0x7b || b == 0x7d || b
        == 0x3c || b == 0x3e || b == 0x3b || b == 0x5b || b == 0x5d || b == 0x3d || b == 0x2c || b
        == 0x22
}

/// Whether a bare identifier that reaches up to `at` ends there: the text
/// ends, or what follows cannot stand in an identifier.
pub open spec fn word_ends_at(bytes: Seq<u8>, at: int) -> bool {
    at >= bytes.len() || ends_identifier(byte_at(bytes, at)) || newline_len(bytes, at) > 0
        || space_len(bytes, at) > 0
}

/// Whether one of the reserved words `true`, `false` and `null` stands at
/// `at` as a whole bare identifier.
pub open spec fn reserved_word_at(bytes: Seq<u8>, at: int) -> bool {
    let b0 = byte_at(bytes, at);
    let b1 = byte_at(bytes, at + 1);
    let b2 = byte_at(bytes, at + 2);
    let b3 = byte_at(bytes, at + 3);
    let b4 = byte_at(bytes, at + 4);
    ||| b0 == 0x74 && b1 == 0x72 && b2 == 0x75 && b3 == 0x65 && word_ends_at(bytes, at + 4)
    ||| b0 == 0x66 && b1 == 0x61 && b2 == 0x6c && b3 == 0x73 && b4 == 0x65 && word_ends_at(
        bytes,
        at + 5,
    )
    ||| b0 == 0x6e && b1 == 0x75 && b2 == 0x6c && b3 == 0x6c && word_ends_at(bytes, at + 4)
}

/// Whether `count` hash signs stand at `at`.
pub open spec fn hashes_at(bytes: Seq<u8>, at: int, count: int) -> bool {
    forall|k: int| 0 <= k < count ==> #[trigger] byte_at(bytes, at + k) == 0x23
}

/// What kind of text the screen stands in.
#[derive(Clone, Copy, Debug, PartialEq, Eq, Structural)]
pub enum Mode {
    /// Outside strings and comments.
    Code,
    /// Inside a string in double quotes.
    Text,
    /// Inside a raw string that ends with a quote and `hashes` hash signs.
    RawText { hashes: usize },
    /// Inside a comment that runs to the end of the line.
    LineComment,
    /// Inside a block comment.
    BlockComment,
}

/// How far a slash-dashed construct has come.
#[derive(Clone, Copy, Debug, PartialEq, Eq, Structural)]
pub enum ScopeKind {
    /// A slash-dash at the place of a node, whose node has not begun.
    AwaitingNode,
    /// A slash-dash among the entries of a node, whose entry or block has
    /// not begun.
    AwaitingEntry,
    /// A slash-dashed node: it lasts to the end of its line.
    Node,
    /// A slash-dashed entry: it lasts to the end of its token.
    Entry,
    /// A slash-dashed children block: it lasts to its closing brace.
    Block,
}

/// A slash-dashed construct that is open.
#[derive(Clone, Copy, Debug, PartialEq, Eq, Structural)]
pub struct Scope {
    pub kind: ScopeKind,
    /// The depth of blocks at which the slash-dash stands.
    pub base: usize,
}

/// The state of the screen between two steps, as a mathematical value.
pub struct ScreenView {
    pub mode: Mode,
    /// The hash signs since an `r` that may begin a raw string.
    pub raw_prefix: Option<usize>,
    /// The children blocks that are open.
    pub depth: usize,
    /// Whether the line holds the beginning of a node.
    pub content: bool,
    /// Whether a backslash has escaped the next line break.
    pub escaped: bool,
    /// The block comments that are open, one inside the other.
    pub comment_depth: usize,
    /// The pieces of the outermost open block comment so far.
    pub pieces: usize,
    /// Whether the last byte of the comment belonged to a run.
    pub in_run: bool,
    /// The slash-dashed constructs that are open, the innermost last.
    pub scopes: Seq<Scope>,
    /// Whether the text is turned away.
    pub refused: bool,
}

impl ScreenView {
    /// The state before the first byte.
    pub open spec fn start() -> ScreenView {
        ScreenView {
            mode: Mode::Code,
            raw_prefix: None,
            depth: 0,
            content: false,
            escaped: false,
            comment_depth: 0,
            pieces: 0,
            in_run: false,
            scopes: Seq::empty(),
            refused: false,
        }
    }

    /// A token has ended: a slash-dashed entry that had begun is over.
    pub open spec fn separated(self) -> ScreenView {
        let scopes = if self.scopes.len() > 0 && self.scopes.last().kind == ScopeKind::Entry {
            self.scopes.drop_last()
        } else {
            self.scopes
        };
        ScreenView { scopes, raw_prefix: None, ..self }
    }

    /// A line has ended. After a backslash the line goes on; else a
    /// slash-dashed node at this depth is over and the next line begins.
    pub open spec fn line_ended(self) -> ScreenView {
        let s = self.separated();
        if s.escaped {
            ScreenView { escaped: false, ..s }
        } else {
            let scopes = if s.scopes.len() > 0 && s.scopes.last().kind == ScopeKind::Node
                && s.scopes.last().base >= s.depth {
                s.scopes.drop_last()
            } else {
                s.scopes
            };
            ScreenView { scopes, content: false, ..s }
        }
    }

    /// A token begins: a slash-dash that awaited its construct has found it,
    /// a block if `brace`, else a node or an entry.
    pub open spec fn token_begun(self, brace: bool) -> ScreenView {
        if self.scopes.len() > 0 && (self.scopes.last().kind == ScopeKind::AwaitingNode
            || self.scopes.last().kind == ScopeKind::AwaitingEntry) {
            let kind = if brace {
                ScopeKind::Block
            } else if self.scopes.last().kind == ScopeKind::AwaitingNode {
                ScopeKind::Node
            } else {
                ScopeKind::Entry
            };
            let top = Scope { kind, base: self.scopes.last().base };
            ScreenView { scopes: self.scopes.drop_last().push(top), content: true, ..self }
        } else {
            ScreenView { content: true, ..self }
        }
    }

    /// A children block opens.
    pub open spec fn block_opened(self) -> ScreenView {
        let s = self.separated().token_begun(true);
        if s.depth >= MAX_BLOCK_DEPTH {
            ScreenView { refused: true, ..s }
        } else {
            ScreenView { depth: (s.depth + 1) as usize, content: false, ..s }
        }
    }

    /// A children block closes, and with it a slash-dashed block that it was.
    pub open spec fn block_closed(self) -> ScreenView {
        let s = self.separated();
        let depth = if s.depth > 0 {
            (s.depth - 1) as usize
        } else {
            0
        };
        let scopes = if s.scopes.len() > 0 && s.scopes.last().kind == ScopeKind::Block
            && s.scopes.last().base >= depth {
            s.scopes.drop_last()
        } else {
            s.scopes
        };
        ScreenView { depth, scopes, content: true, ..s }
    }

    /// A slash-dash stands here: at the place of a node if the line holds
    /// none yet, else among the entries of the node.
    pub open spec fn slashdashed(self) -> ScreenView {
        let s = self.separated();
        if s.scopes.len() >= MAX_SLASHDASH_NESTING {
            ScreenView { refused: true, ..s }
        } else {
            let kind = if s.content {
                ScopeKind::AwaitingEntry
            } else {
                ScopeKind::AwaitingNode
            };
            ScreenView { scopes: s.scopes.push(Scope { kind, base: s.depth }), ..s }
        }
    }

    /// A block comment opens, inside another one or not.
    pub open spec fn comment_opened(self) -> ScreenView {
        let pieces = if self.comment_depth == 0 {
            1
        } else {
            self.pieces + NESTED_COMMENT_PIECES
        };
        if pieces > MAX_COMMENT_PIECES {
            ScreenView { refused: true, ..self }
        } else {
            ScreenView {
                mode: Mode::BlockComment,
                comment_depth: (self.comment_depth + 1) as usize,
                pieces: pieces as usize,
                in_run: false,
                ..self
            }
        }
    }

    /// A block comment closes.
    pub open spec fn comment_closed(self) -> ScreenView {
        if self.comment_depth <= 1 {
            ScreenView { mode: Mode::Code, comment_depth: 0, in_run: false, ..self }
        } else {
            ScreenView { comment_depth: (self.comment_depth - 1) as usize, in_run: false, ..self }
        }
    }

    /// One more piece of the block comment begins.
    pub open spec fn piece_begun(self, run: bool) -> ScreenView {
        if self.pieces >= MAX_COMMENT_PIECES {
            ScreenView { refused: true, ..self }
        } else {
            ScreenView { pieces: (self.pieces + 1) as usize, in_run: run, ..self }
        }
    }

    /// One step in code, at a byte that begins or continues a token.
    pub open spec fn token_byte(self, bytes: Seq<u8>, at: int) -> ScreenView {
        let b = byte_at(bytes, at);
        let s = self.token_begun(false);
        if b == 0x22 {
            let mode = match s.raw_prefix {
                Some(hashes) => Mode::RawText { hashes },
                None => Mode::Text,
            };
            ScreenView { mode, raw_prefix: None, ..s }
        } else if b == 0x28 && reserved_word_at(bytes, at + 1) {
            ScreenView { refused: true, ..s }
        } else if b == 0x72 {
            ScreenView { raw_prefix: Some(0), ..s }
        } else if b == 0x23 && s.raw_prefix is Some && s.raw_prefix->0 < bytes.len() {
            ScreenView { raw_prefix: Some((s.raw_prefix->0 + 1) as usize), ..s }
        } else {
            ScreenView { raw_prefix: None, ..s }
        }
    }

    /// One step outside strings and comments: the state after it and the
    /// bytes it takes.
    pub open spec fn code_step(self, bytes: Seq<u8>, at: int) -> (ScreenView, int) {
        let b = byte_at(bytes, at);
        let next = byte_at(bytes, at + 1);
        if space_len(bytes, at) > 0 {
            (self.separated(), space_len(bytes, at))
        } else if newline_len(bytes, at) > 0 {
            (self.line_ended(), newline_len(bytes, at))
        } else if b == 0x3b {
            (ScreenView { escaped: false, ..self }.line_ended(), 1)
        } else if b == 0x5c {
            (ScreenView { escaped: true, ..self.separated() }, 1)
        } else if b == 0x2f && next == 0x2f {
            (ScreenView { mode: Mode::LineComment, ..self.separated() }, 2)
        } else if b == 0x2f && next == 0x2a {
            (self.separated().comment_opened(), 2)
        } else if b == 0x2f && next == 0x2d {
            (self.slashdashed(), 2)
        } else if b == 0x2f {
            (self.separated(), 1)
        } else if b == 0x7b {
            (self.block_opened(), 1)
        } else if b == 0x7d {
            (self.block_closed(), 1)
        } else {
            (self.token_byte(bytes, at), 1)
        }
    }

    /// One step of the screen at position `at`: the state after it and the
    /// bytes it takes, at least one.
    pub open spec fn step(self, bytes: Seq<u8>, at: int) -> (ScreenView, int) {
        let b = byte_at(bytes, at);
        let next = byte_at(bytes, at + 1);
        match self.mode {
            Mode::Code => self.code_step(bytes, at),
            Mode::Text => {
                if b == 0x5c && at + 1 < bytes.len() {
                    (self, 2)
                } else if b == 0x22 {
                    (ScreenView { mode: Mode::Code, ..self }, 1)
                } else {
                    (self, 1)
                }
            },
            Mode::RawText { hashes } => {
                if b == 0x22 && at + 1 + hashes <= bytes.len() && hashes_at(
                    bytes,
                    at + 1,
                    hashes as int,
                ) {
                    (ScreenView { mode: Mode::Code, ..self }, 1 + hashes)
                } else {
                    (self, 1)
                }
            },
            Mode::LineComment => {
                if newline_len(bytes, at) > 0 {
                    (ScreenView { mode: Mode::Code, ..self }.line_ended(), newline_len(bytes, at))
                } else {
                    (self, 1)
                }
            },
            Mode::BlockComment => {
                if b == 0x2a && next == 0x2f {
                    (self.comment_closed(), 2)
                } else if b == 0x2f && next == 0x2a {
                    (self.comment_opened(), 2)
                } else if b == 0x2a || b == 0x2f {
                    (self.piece_begun(false), 1)
                } else if self.in_run {
                    (self, 1)
                } else {
                    (self.piece_begun(true), 1)
                }
            },
        }
    }

    /// The state after the screen has walked from `at` to the end of the
    /// text, or to where it turns the text away.
    pub open spec fn run(self, bytes: Seq<u8>, at: int) -> ScreenView
        decreases bytes.len() - at,
    {
        if self.refused || at >= bytes.len() || at < 0 {
            self
        } else {
            let (next, taken) = self.step(bytes, at);
            if taken >= 1 {
                next.run(bytes, at + taken)
            } else {
                next
            }
        }
    }
}

/// Whether a text with the bytes `bytes` is admitted to the parser: walking
/// over it from the start, the screen does not turn it away.
pub open spec fn admitted(bytes: Seq<u8>) -> bool {
    !ScreenView::start().run(bytes, 0).refused
}

/// The opening braces in `bytes` from position `at` on.
pub open spec fn braces_from(bytes: Seq<u8>, at: int) -> int
    decreases bytes.len() - at,
{
    if at < 0 || at >= bytes.len() {
        0
    } else {
        braces_from(bytes, at + 1) + if bytes[at] == 0x7b {
            1int
        } else {
            0int
        }
    }
}

/// Whether `bytes` holds neither a slash nor an opening parenthesis.
pub open spec fn plain(bytes: Seq<u8>) -> bool {
    forall|at: int| 0 <= at < bytes.len() ==> bytes[at] != 0x2f && #[trigger] bytes[at] != 0x28
}

/// Skipping bytes loses no more braces than there are.
proof fn lemma_braces_from_shrinks(bytes: Seq<u8>, at: int, ahead: int)
    requires
        0 <= at,
        0 <= ahead,
    ensures
        0 <= braces_from(bytes, at + ahead) <= braces_from(bytes, at),
    decreases ahead,
{
    if ahead > 0 {
        lemma_braces_from_shrinks(bytes, at + 1, ahead - 1);
    } else {
        lemma_braces_from_nonnegative(bytes, at);
    }
}

proof fn lemma_braces_from_nonnegative(bytes: Seq<u8>, at: int)
    ensures
        0 <= braces_from(bytes, at),
    decreases bytes.len() - at,
{
    if 0 <= at < bytes.len() {
        lemma_braces_from_nonnegative(bytes, at + 1);
    }
}

/// On a text without slashes and opening parentheses the screen stays
/// outside comments, opens no slash-dash and turns nothing away, as long as
/// the braces to come fit under the limit.
proof fn lemma_plain_run(s: ScreenView, bytes: Seq<u8>, at: int)
    requires
        plain(bytes),
        0 <= at,
        !s.refused,
        s.mode != Mode::LineComment,
        s.mode != Mode::BlockComment,
        s.scopes.len() == 0,
        s.depth + braces_from(bytes, at) <= MAX_BLOCK_DEPTH,
    ensures
        !s.run(bytes, at).refused,
    decreases bytes.len() - at,
{
    if at < bytes.len() {
        let (next, taken) = s.step(bytes, at);
        assert(bytes[at] != 0x2f && bytes[at] != 0x28);
        assert(taken >= 1);
        lemma_braces_from_shrinks(bytes, at + 1, taken - 1);
        lemma_braces_from_nonnegative(bytes, at + 1);
        assert(next.scopes.len() == 0);
        lemma_plain_run(next, bytes, at + taken);
    }
}

/// A text that holds neither a slash nor an opening parenthesis, and no more
/// opening braces than blocks may nest, is admitted: no comment, no
/// slash-dash and no annotation is in it, and its blocks cannot nest too
/// deep.
pub proof fn lemma_plain_text_is_admitted(bytes: Seq<u8>)
    requires
        plain(bytes),
        braces_from(bytes, 0) <= MAX_BLOCK_DEPTH,
    ensures
        admitted(bytes),
{
    lemma_plain_run(ScreenView::start(), bytes, 0);
}

/// The state of the screen between two steps.
pub struct Screen {
    mode: Mode,
    raw_prefix: Option<usize>,
    depth: usize,
    content: bool,
    escaped: bool,
    comment_depth: usize,
    pieces: usize,
    in_run: bool,
    scopes: Vec<Scope>,
    refused: bool,
}

impl View for Screen {
    type V = ScreenView;

    closed spec fn view(&self) -> ScreenView {
        ScreenView {
            mode: self.mode,
            raw_prefix: self.raw_prefix,
            depth: self.depth,
            content: self.content,
            escaped: self.escaped,
            comment_depth: self.comment_depth,
            pieces: self.pieces,
            in_run: self.in_run,
            scopes: self.scopes@,
            refused: self.refused,
        }
    }
}

/// The byte at position `at`, or 0 beyond the end.
fn byte(bytes: &[u8], at: usize) -> (b: u8)
    ensures
        b == byte_at(bytes@, at as int),
{
    if at < bytes.len() {
        bytes[at]
    } else {
        0
    }
}

/// The byte `ahead` places after `at`, or 0 beyond the end.
fn byte_ahead(bytes: &[u8], at: usize, ahead: usize) -> (b: u8)
    requires
        at <= bytes@.len(),
    ensures
        b == byte_at(bytes@, at + ahead),
{
    if ahead < bytes.len() - at {
        bytes[at + ahead]
    } else {
        0
    }
}

/// The length of the line break that begins at `at`, or 0.
fn newline_length(bytes: &[u8], at: usize) -> (len: usize)
    requires
        at <= bytes@.len(),
    ensures
        len == newline_len(bytes@, at as int),
        len > 0 ==> at + len <= bytes@.len(),
{
    let b0 = byte(bytes, at);
    let b1 = byte_ahead(bytes, at, 1);
    let b2 = byte_ahead(bytes, at, 2);
    if b0 == 0x0d && b1 == 0x0a {
        2
    } else if b0 == 0x0a || b0 == 0x0d || b0 == 0x0c {
        1
    } else if b0 == 0xc2 && b1 == 0x85 {
        2
    } else if b0 == 0xe2 && b1 == 0x80 && (b2 == 0xa8 || b2 == 0xa9) {
        3
    } else {
        0
    }
}

/// The length of the space that begins at `at`, or 0.
fn space_length(bytes: &[u8], at: usize) -> (len: usize)
    requires
        at <= bytes@.len(),
    ensures
        len == space_len(bytes@, at as int),
        len > 0 ==> at + len <= bytes@.len(),
{
    let b0 = byte(bytes, at);
    let b1 = byte_ahead(bytes, at, 1);
    let b2 = byte_ahead(bytes, at, 2);
    if b0 == 0x20 || b0 == 0x09 {
        1
    } else if b0 == 0xc2 && b1 == 0xa0 {
        2
    } else if (b0 == 0xe1 && b1 == 0x9a && b2 == 0x80) || (b0 == 0xe2 && b1 == 0x80 && ((0x80
        <= b2 && b2 <= 0x8a) || b2 == 0xaf)) || (b0 == 0xe2 && b1 == 0x81 && b2 == 0x9f) || (b0
        == 0xe3 && b1 == 0x80 && b2 == 0x80) || (b0 == 0xef && b1 == 0xbb && b2 == 0xbf) {
        3
    } else {
        0
    }
}

/// Whether a bare identifier that reaches up to `at + ahead` ends there.
fn word_ends(bytes: &[u8], at: usize, ahead: usize) -> (ends: bool)
    requires
        at <= bytes@.len(),
        ahead <= 8,
    ensures
        ends == word_ends_at(bytes@, at + ahead),
{
    if ahead >= bytes.len() - at {
        return true;
    }
    let b = bytes[at + ahead];
    b <= 0x20 || b == 0x5c || b == 0x2f || b == 0x28 || b == 0x29 || b == 0x7b || b == 0x7d || b
        == 0x3c || b == 0x3e || b == 0x3b || b == 0x5b || b == 0x5d || b == 0x3d || b == 0x2c || b
        == 0x22 || newline_length(bytes, at + ahead) > 0 || space_length(bytes, at + ahead) > 0
}

/// Whether a reserved word stands at `at + 1` as a whole bare identifier.
fn reserved_word_follows(bytes: &[u8], at: usize) -> (found: bool)
    requires
        at < bytes@.len(),
    ensures
        found == reserved_word_at(bytes@, at + 1),
{
    let b0 = byte_ahead(bytes, at, 1);
    let b1 = byte_ahead(bytes, at, 2);
    let b2 = byte_ahead(bytes, at, 3);
    let b3 = byte_ahead(bytes, at, 4);
    let b4 = byte_ahead(bytes, at, 5);
    (b0 == 0x74 && b1 == 0x72 && b2 == 0x75 && b3 == 0x65 && word_ends(bytes, at, 5)) || (b0
        == 0x66 && b1 == 0x61 && b2 == 0x6c && b3 == 0x73 && b4 == 0x65 && word_ends(bytes, at, 6))
        || (b0 == 0x6e && b1 == 0x75 && b2 == 0x6c && b3 == 0x6c && word_ends(bytes, at, 5))
}

/// Whether `count` hash signs stand at `at`, within the text.
fn hashes_follow(bytes: &[u8], at: usize, count: usize) -> (found: bool)
    requires
        at <= bytes@.len(),
    ensures
        found == (at + count <= bytes@.len() && hashes_at(bytes@, at as int, count as int)),
{
    if count > bytes.len() - at {
        return false;
    }
    let mut k: usize = 0;
    while k < count
        invariant
            k <= count,
            at + count <= bytes@.len() <= usize::MAX,
            forall|j: int| 0 <= j < k ==> #[trigger] byte_at(bytes@, at + j) == 0x23,
        decreases count - k,
    {
        if bytes[at + k] != 0x23 {
            assert(byte_at(bytes@, at + k) != 0x23);
            return false;
        }
        k += 1;
    }
    true
}

impl Screen {
    /// The state before the first byte.
    fn start() -> (screen: Screen)
        ensures
            screen@ == ScreenView::start(),
    {
        Screen {
            mode: Mode::Code,
            raw_prefix: None,
            depth: 0,
            content: false,
            escaped: false,
            comment_depth: 0,
            pieces: 0,
            in_run: false,
            scopes: Vec::new(),
            refused: false,
        }
    }

    fn separate(&mut self)
        ensures
            final(self)@ == old(self)@.separated(),
    {
        let n = self.scopes.len();
        if n > 0 && self.scopes[n - 1].kind == ScopeKind::Entry {
            self.scopes.pop();
        }
        self.raw_prefix = None;
    }

    fn end_line(&mut self)
        ensures
            final(self)@ == old(self)@.line_ended(),
    {
        self.separate();
        if self.escaped {
            self.escaped = false;
        } else {
            let n = self.scopes.len();
            if n > 0 && self.scopes[n - 1].kind == ScopeKind::Node && self.scopes[n - 1].base
                >= self.depth {
                self.scopes.pop();
            }
            self.content = false;
        }
    }

    fn begin_token(&mut self, brace: bool)
        ensures
            final(self)@ == old(self)@.token_begun(brace),
    {
        let n = self.scopes.len();
        if n > 0 && (self.scopes[n - 1].kind == ScopeKind::AwaitingNode || self.scopes[n - 1].kind
            == ScopeKind::AwaitingEntry) {
            let kind = if brace {
                ScopeKind::Block
            } else if self.scopes[n - 1].kind == ScopeKind::AwaitingNode {
                ScopeKind::Node
            } else {
                ScopeKind::Entry
            };
            let top = Scope { kind, base: self.scopes[n - 1].base };
            self.scopes.pop();
            self.scopes.push(top);
        }
        self.content = true;
    }

    fn open_block(&mut self)
        ensures
            final(self)@ == old(self)@.block_opened(),
    {
        self.separate();
        self.begin_token(true);
        if self.depth >= MAX_BLOCK_DEPTH {
            self.refused = true;
        } else {
            self.depth = self.depth + 1;
            self.content = false;
        }
    }

    fn close_block(&mut self)
        ensures
            final(self)@ == old(self)@.block_closed(),
    {
        self.separate();
        if self.depth > 0 {
            self.depth = self.depth - 1;
        }
        let n = self.scopes.len();
        if n > 0 && self.scopes[n - 1].kind == ScopeKind::Block && self.scopes[n - 1].base
            >= self.depth {
            self.scopes.pop();
        }
        self.content = true;
    }

    fn slashdash(&mut self)
        ensures
            final(self)@ == old(self)@.slashdashed(),
    {
        self.separate();
        if self.scopes.len() >= MAX_SLASHDASH_NESTING {
            self.refused = true;
        } else {
            let kind = if self.content {
                ScopeKind::AwaitingEntry
            } else {
                ScopeKind::AwaitingNode
            };
            self.scopes.push(Scope { kind, base: self.depth });
        }
    }

    fn open_comment(&mut self)
        requires
            old(self).comment_depth <= old(self).pieces <= MAX_COMMENT_PIECES,
        ensures
            final(self)@ == old(self)@.comment_opened(),
            final(self).comment_depth <= final(self).pieces <= MAX_COMMENT_PIECES,
    {
        let pieces = if self.comment_depth == 0 {
            1
        } else {
            self.pieces + NESTED_COMMENT_PIECES
        };
        if pieces > MAX_COMMENT_PIECES {
            self.refused = true;
        } else {
            self.mode = Mode::BlockComment;
            self.comment_depth = self.comment_depth + 1;
            self.pieces = pieces;
            self.in_run = false;
        }
    }

    fn close_comment(&mut self)
        requires
            old(self).comment_depth <= old(self).pieces <= MAX_COMMENT_PIECES,
        ensures
            final(self)@ == old(self)@.comment_closed(),
            final(self).comment_depth <= final(self).pieces <= MAX_COMMENT_PIECES,
    {
        if self.comment_depth <= 1 {
            self.mode = Mode::Code;
            self.comment_depth = 0;
        } else {
            self.comment_depth = self.comment_depth - 1;
        }
        self.in_run = false;
    }

    fn begin_piece(&mut self, run: bool)
        requires
            old(self).comment_depth <= old(self).pieces <= MAX_COMMENT_PIECES,
        ensures
            final(self)@ == old(self)@.piece_begun(run),
            final(self).comment_depth <= final(self).pieces <= MAX_COMMENT_PIECES,
    {
        if self.pieces >= MAX_COMMENT_PIECES {
            self.refused = true;
        } else {
            self.pieces = self.pieces + 1;
            self.in_run = run;
        }
    }

    fn take_token_byte(&mut self, bytes: &[u8], at: usize)
        requires
            at < bytes@.len(),
        ensures
            final(self)@ == old(self)@.token_byte(bytes@, at as int),
            final(self).comment_depth == old(self).comment_depth,
            final(self).pieces == old(self).pieces,
    {
        let b = bytes[at];
        self.begin_token(false);
        if b == 0x22 {
            self.mode = match self.raw_prefix {
                Some(hashes) => Mode::RawText { hashes },
                None => Mode::Text,
            };
            self.raw_prefix = None;
        } else if b == 0x28 && reserved_word_follows(bytes, at) {
            self.refused = true;
        } else if b == 0x72 {
            self.raw_prefix = Some(0);
        } else {
            self.raw_prefix = match self.raw_prefix {
                Some(hashes) => if b == 0x23 && hashes < bytes.len() {
                    Some(hashes + 1)
                } else {
                    None
                },
                None => None,
            };
        }
    }

    fn take_code(&mut self, bytes: &[u8], at: usize) -> (taken: usize)
        requires
            at < bytes@.len(),
            old(self).comment_depth <= old(self).pieces <= MAX_COMMENT_PIECES,
        ensures
            (final(self)@, taken as int) == old(self)@.code_step(bytes@, at as int),
            1 <= taken && at + taken <= bytes@.len(),
            final(self).comment_depth <= final(self).pieces <= MAX_COMMENT_PIECES,
    {
        let b = bytes[at];
        let next = byte_ahead(bytes, at, 1);
        let space = space_length(bytes, at);
        let newline = newline_length(bytes, at);
        if space > 0 {
            self.separate();
            space
        } else if newline > 0 {
            self.end_line();
            newline
        } else if b == 0x3b {
            self.escaped = false;
            self.end_line();
            1
        } else if b == 0x5c {
            self.separate();
            self.escaped = true;
            1
        } else if b == 0x2f && next == 0x2f {
            self.separate();
            self.mode = Mode::LineComment;
            2
        } else if b == 0x2f && next == 0x2a {
            self.separate();
            self.open_comment();
            2
        } else if b == 0x2f && next == 0x2d {
            self.slashdash();
            2
        } else if b == 0x2f {
            self.separate();
            1
        } else if b == 0x7b {
            self.open_block();
            1
        } else if b == 0x7d {
            self.close_block();
            1
        } else {
            self.take_token_byte(bytes, at);
            1
        }
    }

    fn take(&mut self, bytes: &[u8], at: usize) -> (taken: usize)
        requires
            at < bytes@.len(),
            old(self).comment_depth <= old(self).pieces <= MAX_COMMENT_PIECES,
        ensures
            (final(self)@, taken as int) == old(self)@.step(bytes@, at as int),
            1 <= taken && at + taken <= bytes@.len(),
            final(self).comment_depth <= final(self).pieces <= MAX_COMMENT_PIECES,
    {
        let b = bytes[at];
        let next = byte_ahead(bytes, at, 1);
        match self.mode {
            Mode::Code => self.take_code(bytes, at),
            Mode::Text => {
                if b == 0x5c && at + 1 < bytes.len() {
                    2
                } else if b == 0x22 {
                    self.mode = Mode::Code;
                    1
                } else {
                    1
                }
            },
            Mode::RawText { hashes } => {
                if b == 0x22 && hashes_follow(bytes, at + 1, hashes) {
                    self.mode = Mode::Code;
                    1 + hashes
                } else {
                    1
                }
            },
            Mode::LineComment => {
                let newline = newline_length(bytes, at);
                if newline > 0 {
                    self.mode = Mode::Code;
                    self.end_line();
                    newline
                } else {
                    1
                }
            },
            Mode::BlockComment => {
                if b == 0x2a && next == 0x2f {
                    self.close_comment();
                    2
                } else if b == 0x2f && next == 0x2a {
                    self.open_comment();
                    2
                } else if b == 0x2a || b == 0x2f {
                    self.begin_piece(false);
                    1
                } else if self.in_run {
                    1
                } else {
                    self.begin_piece(true);
                    1
                }
            },
        }
    }
}

/// Whether the bytes `bytes` are admitted to the parser.
pub fn are_admitted(bytes: &[u8]) -> (yes: bool)
    ensures
        yes == admitted(bytes@),
{
    let mut screen = Screen::start();
    let mut at: usize = 0;
    while at < bytes.len() && !screen.refused
        invariant
            at <= bytes@.len(),
            screen.comment_depth <= screen.pieces <= MAX_COMMENT_PIECES,
            screen@.run(bytes@, at as int) == ScreenView::start().run(bytes@, 0),
        decreases bytes@.len() - at,
    {
        let taken = screen.take(bytes, at);
        at = at + taken;
    }
    !screen.refused
}

/// Whether `text` is admitted to the parser.
pub fn is_admitted(text: &str) -> (yes: bool)
    ensures
        yes == admitted(text.spec_bytes()),
{
    are_admitted(text.as_bytes())
}

} // verus!
