//! The modal command state: a buffer for multi-key commands, an
//! operator-pending flag, a numeric count prefix accumulated digit by
//! digit, and the anchor position of a selection.

use vstd::prelude::*;

use crate::position::Position;
use crate::syntax::is_digit_char;

verus! {

/// The numeric value of an ASCII digit.
pub open spec fn digit_val(c: char) -> int {
    c as u32 - 0x30
}

/// A decimal count extended by one more digit, saturating at the largest
/// representable count.
pub open spec fn count_extended(base: int, d: int) -> int {
    if base * 10 + d <= usize::MAX {
        base * 10 + d
    } else {
        usize::MAX as int
    }
}

/// The transient state of a compound command in Normal or a visual mode.
/// It is cleared whenever a command completes or is aborted.
pub struct CommandState {
    buffer: Vec<char>,
    operator_pending: bool,
    current_operator: Option<char>,
    count: Option<usize>,
    start_position: Option<Position>,
}

impl CommandState {
    /// The multi-key command buffer.
    pub closed spec fn buffer_view(&self) -> Seq<char> {
        self.buffer@
    }

    /// Whether an operator awaits a following motion.
    pub closed spec fn pending(&self) -> bool {
        self.operator_pending
    }

    /// The pending operator, if any.
    pub closed spec fn operator(&self) -> Option<char> {
        self.current_operator
    }

    /// The accumulated count prefix, if one was typed.
    pub closed spec fn count_opt(&self) -> Option<usize> {
        self.count
    }

    /// The recorded selection anchor, if any.
    pub closed spec fn start_pos(&self) -> Option<Position> {
        self.start_position
    }

    /// A command state with nothing pending.
    pub open spec fn is_cleared(&self) -> bool {
        &&& self.buffer_view().len() == 0
        &&& !self.pending()
        &&& self.operator() is None
        &&& self.count_opt() is None
        &&& self.start_pos() is None
    }

    /// Creates an empty command state.
    pub fn new() -> (s: Self)
        ensures
            s.is_cleared(),
    {
        CommandState {
            buffer: Vec::new(),
            operator_pending: false,
            current_operator: None,
            count: None,
            start_position: None,
        }
    }

    /// Adds a character to the command buffer.
    pub fn push(&mut self, c: char)
        ensures
            final(self).buffer_view() == old(self).buffer_view().push(c),
            final(self).pending() == old(self).pending(),
            final(self).operator() == old(self).operator(),
            final(self).count_opt() == old(self).count_opt(),
            final(self).start_pos() == old(self).start_pos(),
    {
        self.buffer.push(c);
    }

    /// Clears the whole command state.
    pub fn clear(&mut self)
        ensures
            final(self).is_cleared(),
    {
        self.buffer.clear();
        self.operator_pending = false;
        self.current_operator = None;
        self.count = None;
        self.start_position = None;
    }

    /// Whether the command state holds nothing: no buffered keys, no
    /// operator, no count.
    pub fn is_empty(&self) -> (b: bool)
        ensures
            b == (self.buffer_view().len() == 0 && self.operator() is None && self.count_opt()
                is None),
    {
        self.buffer.len() == 0 && self.current_operator.is_none() && self.count.is_none()
    }

    /// Whether any keys of a multi-key command are buffered.
    pub fn has_buffered(&self) -> (b: bool)
        ensures
            b == (self.buffer_view().len() > 0),
    {
        self.buffer.len() > 0
    }

    /// Whether a motion is awaited after an operator.
    pub fn is_operator_pending(&self) -> (b: bool)
        ensures
            b == self.pending(),
    {
        self.operator_pending
    }

    /// Records an operator and enters the operator-pending state.
    pub fn set_operator_pending(&mut self, op: char)
        ensures
            final(self).pending(),
            final(self).operator() == Some(op),
            final(self).buffer_view() == old(self).buffer_view(),
            final(self).count_opt() == old(self).count_opt(),
            final(self).start_pos() == old(self).start_pos(),
    {
        self.operator_pending = true;
        self.current_operator = Some(op);
    }

    /// The pending operator, if any.
    pub fn get_operator(&self) -> (op: Option<char>)
        ensures
            op == self.operator(),
    {
        self.current_operator
    }

    /// Accumulates one keystroke into the count prefix: a digit extends
    /// the count (decimal, most significant digit first, saturating),
    /// except that a leading zero only starts a zero count; anything
    /// else is rejected unchanged.
    pub fn parse_count(&mut self, c: char) -> (accepted: bool)
        ensures
            accepted == is_digit_char(c),
            !is_digit_char(c) ==> *final(self) == *old(self),
            is_digit_char(c) && c == '0' && old(self).count_opt() is None ==> final(self).count_opt()
                == Some(0usize),
            is_digit_char(c) && !(c == '0' && old(self).count_opt() is None) ==> final(self).count_opt()
                == Some(
                count_extended(
                    match old(self).count_opt() {
                        Some(n) => n as int,
                        None => 0,
                    },
                    digit_val(c),
                ) as usize,
            ),
            final(self).buffer_view() == old(self).buffer_view(),
            final(self).pending() == old(self).pending(),
            final(self).operator() == old(self).operator(),
            final(self).start_pos() == old(self).start_pos(),
    {
        let u = c as u32;
        if !(0x30 <= u && u <= 0x39) {
            return false;
        }
        if c == '0' && self.count.is_none() {
            self.count = Some(0);
            return true;
        }
        let d: usize = (u - 0x30) as usize;
        let base: usize = match self.count {
            Some(n) => n,
            None => 0,
        };
        let limit = (usize::MAX - d) / 10;
        let extended = if base <= limit {
            base * 10 + d
        } else {
            usize::MAX
        };
        proof {
            assert(extended == count_extended(base as int, d as int)) by (nonlinear_arith)
                requires
                    d <= 9,
                    limit == (usize::MAX - d) / 10,
                    extended == if base <= limit {
                        (base * 10 + d) as usize
                    } else {
                        usize::MAX
                    },
                    base <= limit ==> base * 10 + d <= usize::MAX,
            ;
        }
        self.count = Some(extended);
        true
    }

    /// The count to apply: the accumulated prefix, or one if none was
    /// typed.
    pub fn get_count(&self) -> (n: usize)
        ensures
            n == match self.count_opt() {
                Some(m) => m,
                None => 1usize,
            },
    {
        match self.count {
            Some(n) => n,
            None => 1,
        }
    }

    /// Whether a count prefix was explicitly typed.
    pub fn has_count(&self) -> (b: bool)
        ensures
            b == (self.count_opt() is Some),
    {
        self.count.is_some()
    }

    /// Records the starting position of a command or selection.
    pub fn set_start_position(&mut self, position: Position)
        ensures
            final(self).start_pos() == Some(position),
            final(self).buffer_view() == old(self).buffer_view(),
            final(self).pending() == old(self).pending(),
            final(self).operator() == old(self).operator(),
            final(self).count_opt() == old(self).count_opt(),
    {
        self.start_position = Some(position);
    }

    /// The recorded starting position, if any.
    pub fn get_start_position(&self) -> (p: Option<Position>)
        ensures
            p == self.start_pos(),
    {
        self.start_position
    }

    /// The buffered keys of the command in progress, in order.
    pub fn buffered_keys(&self) -> (r: Vec<char>)
        ensures
            r@ == self.buffer_view(),
    {
        let mut r: Vec<char> = Vec::new();
        let mut i: usize = 0;
        while i < self.buffer.len()
            invariant
                i <= self.buffer@.len(),
                r@ == self.buffer@.take(i as int),
            decreases self.buffer@.len() - i,
        {
            r.push(self.buffer[i]);
            proof {
                assert(r@ =~= self.buffer@.take(i as int + 1));
            }
            i = i + 1;
        }
        proof {
            assert(self.buffer@.take(self.buffer@.len() as int) =~= self.buffer@);
        }
        r
    }
}

/// The ASCII character of one decimal digit.
pub open spec fn digit_char(d: int) -> char {
    if d == 0 {
        '0'
    } else if d == 1 {
        '1'
    } else if d == 2 {
        '2'
    } else if d == 3 {
        '3'
    } else if d == 4 {
        '4'
    } else if d == 5 {
        '5'
    } else if d == 6 {
        '6'
    } else if d == 7 {
        '7'
    } else if d == 8 {
        '8'
    } else {
        '9'
    }
}

/// The decimal digits of a number, most significant first.
pub open spec fn spec_decimal(n: int) -> Seq<char>
    decreases n when n >= 0
{
    if n < 10 {
        seq![digit_char(n)]
    } else {
        spec_decimal(n / 10).push(digit_char(n % 10))
    }
}

/// Appends the decimal digits of `n`, most significant first.
pub(crate) fn push_decimal(n: usize, out: &mut String)
    ensures
        final(out)@ == old(out)@ + spec_decimal(n as int),
    decreases n,
{
    let d = n % 10;
    let c = if d == 0 {
        '0'
    } else if d == 1 {
        '1'
    } else if d == 2 {
        '2'
    } else if d == 3 {
        '3'
    } else if d == 4 {
        '4'
    } else if d == 5 {
        '5'
    } else if d == 6 {
        '6'
    } else if d == 7 {
        '7'
    } else if d == 8 {
        '8'
    } else {
        '9'
    };
    proof {
        assert(c == digit_char(d as int));
    }
    if n >= 10 {
        push_decimal(n / 10, out);
    }
    out.push(c);
    proof {
        if n < 10 {
            assert(final(out)@ =~= old(out)@ + spec_decimal(n as int));
        } else {
            assert(final(out)@ =~= old(out)@ + spec_decimal(n as int));
        }
    }
}

impl CommandState {
    /// The whole command as the user typed it: the count prefix, then the
    /// pending operator, then the buffered keys.
    pub open spec fn command_display(&self) -> Seq<char> {
        (match self.count_opt() {
            Some(n) => spec_decimal(n as int),
            None => Seq::<char>::empty(),
        }) + (match self.operator() {
            Some(op) => seq![op],
            None => Seq::<char>::empty(),
        }) + self.buffer_view()
    }

    /// Renders the command in progress for the status area.
    pub fn as_string(&self) -> (r: String)
        ensures
            r@ == self.command_display(),
    {
        let mut r = String::new();
        match self.count {
            Some(n) => push_decimal(n, &mut r),
            None => {},
        }
        match self.current_operator {
            Some(op) => r.push(op),
            None => {},
        }
        let mut i: usize = 0;
        let ghost mid = r@;
        while i < self.buffer.len()
            invariant
                i <= self.buffer@.len(),
                r@ == mid + self.buffer@.take(i as int),
            decreases self.buffer@.len() - i,
        {
            r.push(self.buffer[i]);
            proof {
                assert(r@ =~= mid + self.buffer@.take(i as int + 1));
            }
            i = i + 1;
        }
        proof {
            assert(self.buffer@.take(self.buffer@.len() as int) =~= self.buffer@);
            assert(r@ =~= self.command_display());
        }
        r
    }
}

/// Text objects for compound commands.
#[derive(Clone, Copy, PartialEq, Eq, Structural, Debug)]
pub enum TextObject {
    Word,
    InnerWord,
    AroundWord,
    InnerParagraph,
    AroundParagraph,
    InnerBlock,
    AroundBlock,
    InnerQuote,
    AroundQuote,
    Heading,
    AroundHeading,
    ListItem,
    AroundListItem,
    CodeBlock,
    AroundCodeBlock,
}

/// Operators that await a motion or text object.
#[derive(Clone, Copy, PartialEq, Eq, Structural, Debug)]
pub enum Operator {
    Delete,
    Change,
    Yank,
    Indent,
    Outdent,
    Format,
}

/// Cursor motions.
#[derive(Clone, Copy, PartialEq, Eq, Structural, Debug)]
pub enum Motion {
    Left,
    Down,
    Up,
    Right,
    WordForward,
    WordBackward,
    WordEnd,
    LineStart,
    LineFirstChar,
    LineEnd,
    FileStart,
    FileEnd,
    ParagraphForward,
    ParagraphBackward,
    FindChar,
    TillChar,
    FindCharBack,
    TillCharBack,
    HeadingNext,
    HeadingPrev,
    HeadingSameLevelNext,
    HeadingSameLevelPrev,
    ParentHeading,
    ChildHeading,
    ListItemNext,
    ListItemPrev,
    CodeBlockNext,
    CodeBlockPrev,
    TodoItemNext,
    TodoItemPrev,
}

} // verus!
