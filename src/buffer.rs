use vstd::prelude::*;

verus! {

/// Where a cursor motion takes the cursor.
#[derive(Debug, Clone, Copy, PartialEq, Eq, Structural)]
pub enum Motion {
    Left,
    Right,
    Up,
    Down,
    Home,
    End,
    DocumentStart,
    DocumentEnd,
    /// To the start of the word at or before the cursor.
    WordLeft,
    /// To the end of the word at or after the cursor.
    WordRight,
}

/// One edit applied to the buffer by the user.
#[derive(Debug, Clone)]
pub enum EditAction {
    /// Moves the cursor and drops the selection.
    Move(Motion),
    /// Moves the cursor and keeps, or starts, the selection.
    Select(Motion),
    /// Selects the word around the cursor.
    SelectWord,
    /// Selects the line that holds the cursor, with its line break.
    SelectLine,
    /// Puts the cursor at an offset, or the text's end, and drops the selection.
    MoveTo(usize),
    /// Extends the selection to an offset, or the text's end.
    SelectTo(usize),
    Insert(char),
    Paste(String),
    Enter,
    Backspace,
    Delete,
}

/// The abstract buffer: its text, the cursor, an offset into the text, and the
/// anchor, the other end of the selection when there is one.
pub struct BufferView {
    pub text: Seq<char>,
    pub cursor: nat,
    pub anchor: Option<nat>,
    /// The column that moves up and down aim for, kept from one such move to the next.
    pub goal: Option<nat>,
}

/// The editable text with its cursor and selection.
pub struct Buffer {
    chars: Vec<char>,
    cursor: usize,
    anchor: Option<usize>,
    goal: Option<usize>,
}

/// Characters that separate words.
pub open spec fn is_space(c: char) -> bool {
    c == ' ' || c == '\t' || c == '\n' || c == '\r'
}

/// Offset reached from `i` by passing leftwards over characters that are spaces
/// (`space`) or not.
pub open spec fn skip_left(s: Seq<char>, i: int, space: bool) -> int
    decreases i,
{
    if i <= 0 || i > s.len() {
        i
    } else if is_space(s[i - 1]) == space {
        skip_left(s, i - 1, space)
    } else {
        i
    }
}

/// Offset reached from `i` by passing rightwards over characters that are spaces
/// (`space`) or not.
pub open spec fn skip_right(s: Seq<char>, i: int, space: bool) -> int
    decreases s.len() - i,
{
    if i < 0 || i >= s.len() {
        i
    } else if is_space(s[i]) == space {
        skip_right(s, i + 1, space)
    } else {
        i
    }
}

/// Number of bytes that UTF-8 takes for `c`.
pub open spec fn utf8_len(c: char) -> nat {
    if (c as u32) < 0x80 {
        1
    } else if (c as u32) < 0x800 {
        2
    } else if (c as u32) < 0x10000 {
        3
    } else {
        4
    }
}

/// Offset where line `n`, counted from zero and from offset `i`, starts; the text's
/// length when there are fewer lines.
pub open spec fn nth_line_start(s: Seq<char>, i: int, n: nat) -> int
    decreases s.len() - i, n,
{
    if n == 0 || i < 0 {
        i
    } else if i >= s.len() {
        s.len() as int
    } else if s[i] == '\n' {
        nth_line_start(s, i + 1, (n - 1) as nat)
    } else {
        nth_line_start(s, i + 1, n)
    }
}

/// Offset reached from `i` by passing over `bytes` bytes of UTF-8 within the line.
pub open spec fn advance(s: Seq<char>, i: int, bytes: nat) -> int
    decreases s.len() - i,
{
    if i < 0 || i >= s.len() || s[i] == '\n' || bytes < utf8_len(s[i]) {
        i
    } else {
        advance(s, i + 1, (bytes - utf8_len(s[i])) as nat)
    }
}

/// Offset of the position at `line` and UTF-8 byte `column` within that line.
pub open spec fn offset_at(s: Seq<char>, line: nat, column: nat) -> int {
    advance(s, nth_line_start(s, 0, line), column)
}

/// First offset of the line that holds offset `i`.
pub open spec fn line_start(s: Seq<char>, i: int) -> int
    decreases i,
{
    if i <= 0 {
        0
    } else if s[i - 1] == '\n' {
        i
    } else {
        line_start(s, i - 1)
    }
}

/// Offset of the line break that ends the line holding offset `i`, or the text's length.
pub open spec fn line_end(s: Seq<char>, i: int) -> int
    decreases s.len() - i,
{
    if i >= s.len() || i < 0 {
        s.len() as int
    } else if s[i] == '\n' {
        i
    } else {
        line_end(s, i + 1)
    }
}

/// Number of line breaks before offset `i`.
pub open spec fn line_index(s: Seq<char>, i: int) -> nat
    decreases i,
{
    if i <= 0 {
        0
    } else {
        line_index(s, i - 1) + if s[i - 1] == '\n' {
            1nat
        } else {
            0nat
        }
    }
}

/// The smaller of two integers.
pub open spec fn min(a: int, b: int) -> int {
    if a <= b {
        a
    } else {
        b
    }
}

/// The larger of two integers.
pub open spec fn max(a: int, b: int) -> int {
    if a <= b {
        b
    } else {
        a
    }
}

/// Cursor offset after a motion from offset `k` in text `t`; moves up and down aim
/// for column `col`.
pub open spec fn motion_target(t: Seq<char>, k: int, m: Motion, col: int) -> int {
    match m {
        Motion::Left => if k == 0 {
            0
        } else {
            k - 1
        },
        Motion::Right => min(k + 1, t.len() as int),
        Motion::Up => {
            let ls = line_start(t, k);
            if ls == 0 {
                0
            } else {
                min(line_start(t, ls - 1) + col, ls - 1)
            }
        },
        Motion::Down => {
            let le = line_end(t, k);
            if le == t.len() {
                t.len() as int
            } else {
                min(le + 1 + col, line_end(t, le + 1))
            }
        },
        Motion::Home => line_start(t, k),
        Motion::End => line_end(t, k),
        Motion::DocumentStart => 0,
        Motion::DocumentEnd => t.len() as int,
        Motion::WordLeft => skip_left(t, skip_left(t, k, true), false),
        Motion::WordRight => skip_right(t, skip_right(t, k, true), false),
    }
}

/// The column that a move up or down aims for: the remembered one, else the cursor's.
pub open spec fn column_goal(b: BufferView) -> int {
    match b.goal {
        Some(g) => g as int,
        None => b.cursor - line_start(b.text, b.cursor as int),
    }
}

/// The column to remember after motion `m`.
pub open spec fn goal_after(b: BufferView, m: Motion) -> Option<nat> {
    if m == Motion::Up || m == Motion::Down {
        Some(column_goal(b) as nat)
    } else {
        None
    }
}

/// Start and end of the selected text; both are the cursor when nothing is selected.
pub open spec fn selected(b: BufferView) -> (int, int) {
    match b.anchor {
        Some(a) => (min(a as int, b.cursor as int), max(a as int, b.cursor as int)),
        None => (b.cursor as int, b.cursor as int),
    }
}

/// `ins` put in place of the selection, the cursor after it.
pub open spec fn replace_selection(b: BufferView, ins: Seq<char>) -> BufferView {
    let (lo, hi) = selected(b);
    BufferView { text: splice(b.text, lo, hi, ins), cursor: (lo + ins.len()) as nat, anchor: None, goal: None }
}

/// The anchor that extending the selection keeps: the old one, else the cursor.
pub open spec fn kept_anchor(b: BufferView) -> Option<nat> {
    match b.anchor {
        Some(a) => Some(a),
        None => Some(b.cursor),
    }
}

/// `ins` put in place of the characters of `t` from `lo` to `hi`.
pub open spec fn splice(t: Seq<char>, lo: int, hi: int, ins: Seq<char>) -> Seq<char> {
    t.subrange(0, lo) + ins + t.subrange(hi, t.len() as int)
}

/// The buffer after one edit. Typing replaces the selection; deleting with a
/// selection removes it.
pub open spec fn apply_edit(b: BufferView, a: EditAction) -> BufferView {
    let k = b.cursor as int;
    let t = b.text;
    let (lo, hi) = selected(b);
    match a {
        EditAction::Move(m) => BufferView {
            text: t,
            cursor: motion_target(t, k, m, column_goal(b)) as nat,
            anchor: None,
            goal: goal_after(b, m),
        },
        EditAction::Select(m) => BufferView {
            text: t,
            cursor: motion_target(t, k, m, column_goal(b)) as nat,
            anchor: kept_anchor(b),
            goal: goal_after(b, m),
        },
        EditAction::SelectWord => BufferView {
            text: t,
            cursor: skip_right(t, k, false) as nat,
            anchor: Some(skip_left(t, k, false) as nat),
            goal: None,
        },
        EditAction::SelectLine => BufferView {
            text: t,
            cursor: min(line_end(t, k) + 1, t.len() as int) as nat,
            anchor: Some(line_start(t, k) as nat),
            goal: None,
        },
        EditAction::MoveTo(o) => BufferView { text: t, cursor: min(o as int, t.len() as int) as nat, anchor: None, goal: None },
        EditAction::SelectTo(o) => BufferView {
            text: t,
            cursor: min(o as int, t.len() as int) as nat,
            anchor: kept_anchor(b),
            goal: None,
        },
        EditAction::Insert(c) => replace_selection(b, seq![c]),
        EditAction::Paste(s) => replace_selection(b, s@),
        EditAction::Enter => replace_selection(b, seq!['\n']),
        EditAction::Backspace => if lo < hi {
            replace_selection(b, seq![])
        } else if k == 0 {
            BufferView { anchor: None, goal: None, ..b }
        } else {
            BufferView { text: splice(t, k - 1, k, seq![]), cursor: (k - 1) as nat, anchor: None, goal: None }
        },
        EditAction::Delete => if lo < hi {
            replace_selection(b, seq![])
        } else if k == t.len() {
            BufferView { anchor: None, goal: None, ..b }
        } else {
            BufferView { text: splice(t, k, k + 1, seq![]), cursor: b.cursor, anchor: None, goal: None }
        },
    }
}

/// The buffer after the edits of `actions`, applied from first to last.
pub open spec fn apply_edits(b: BufferView, actions: Seq<EditAction>) -> BufferView
    decreases actions.len(),
{
    if actions.len() == 0 {
        b
    } else {
        apply_edit(apply_edits(b, actions.drop_last()), actions.last())
    }
}

/// The start of a line lies at or before the offset, just after a line break.
pub proof fn lemma_line_start_bounds(s: Seq<char>, i: int)
    requires
        0 <= i <= s.len(),
    ensures
        0 <= line_start(s, i) <= i,
        line_start(s, i) > 0 ==> s[line_start(s, i) - 1] == '\n',
    decreases i,
{
    if i > 0 && s[i - 1] != '\n' {
        lemma_line_start_bounds(s, i - 1);
    }
}

/// The end of a line lies at or after the offset, on a line break or at the text's end.
pub proof fn lemma_line_end_bounds(s: Seq<char>, i: int)
    requires
        0 <= i <= s.len(),
    ensures
        i <= line_end(s, i) <= s.len(),
        line_end(s, i) < s.len() ==> s[line_end(s, i)] == '\n',
    decreases s.len() - i,
{
    if i < s.len() && s[i] != '\n' {
        lemma_line_end_bounds(s, i + 1);
    }
}

/// Passing over characters leftwards stays within the text.
pub proof fn lemma_skip_left_bounds(s: Seq<char>, i: int, space: bool)
    requires
        0 <= i <= s.len(),
    ensures
        0 <= skip_left(s, i, space) <= i,
    decreases i,
{
    if i > 0 && is_space(s[i - 1]) == space {
        lemma_skip_left_bounds(s, i - 1, space);
    }
}

/// Passing over characters rightwards stays within the text.
pub proof fn lemma_skip_right_bounds(s: Seq<char>, i: int, space: bool)
    requires
        0 <= i <= s.len(),
    ensures
        i <= skip_right(s, i, space) <= s.len(),
    decreases s.len() - i,
{
    if i < s.len() && is_space(s[i]) == space {
        lemma_skip_right_bounds(s, i + 1, space);
    }
}

proof fn lemma_motion_in_text(t: Seq<char>, k: int, m: Motion, col: int)
    requires
        0 <= k <= t.len(),
        0 <= col,
    ensures
        0 <= motion_target(t, k, m, col) <= t.len(),
{
    lemma_line_start_bounds(t, k);
    lemma_line_end_bounds(t, k);
    let ls = line_start(t, k);
    let le = line_end(t, k);
    if ls > 0 {
        lemma_line_start_bounds(t, ls - 1);
    }
    if le < t.len() {
        lemma_line_end_bounds(t, le + 1);
    }
    lemma_skip_left_bounds(t, k, true);
    lemma_skip_left_bounds(t, skip_left(t, k, true), false);
    lemma_skip_right_bounds(t, k, true);
    lemma_skip_right_bounds(t, skip_right(t, k, true), false);
}

impl View for Buffer {
    type V = BufferView;

    closed spec fn view(&self) -> BufferView {
        BufferView {
            text: self.chars@,
            cursor: self.cursor as nat,
            anchor: match self.anchor {
                Some(a) => Some(a as nat),
                None => None,
            },
            goal: match self.goal {
                Some(g) => Some(g as nat),
                None => None,
            },
        }
    }
}

/// `ins` put in place of the characters of `t` from `lo` to `hi`.
fn splice_vec(t: &Vec<char>, lo: usize, hi: usize, ins: &Vec<char>) -> (r: Vec<char>)
    requires
        lo <= hi <= t.len(),
    ensures
        r@ == splice(t@, lo as int, hi as int, ins@),
{
    let mut r: Vec<char> = Vec::new();
    let mut i: usize = 0;
    while i < lo
        invariant
            i <= lo <= hi <= t.len(),
            r@ == t@.subrange(0, i as int),
        decreases lo - i,
    {
        r.push(t[i]);
        i += 1;
    }
    let mut j: usize = 0;
    while j < ins.len()
        invariant
            lo <= hi <= t.len(),
            j <= ins.len(),
            r@ == t@.subrange(0, lo as int) + ins@.subrange(0, j as int),
        decreases ins.len() - j,
    {
        r.push(ins[j]);
        j += 1;
    }
    let mut i: usize = hi;
    while i < t.len()
        invariant
            lo <= hi <= i <= t.len(),
            r@ == t@.subrange(0, lo as int) + ins@ + t@.subrange(hi as int, i as int),
        decreases t.len() - i,
    {
        r.push(t[i]);
        i += 1;
    }
    assert(ins@.subrange(0, ins@.len() as int) == ins@);
    r
}

/// First offset of the line that holds offset `k`.
fn find_line_start(t: &Vec<char>, k: usize) -> (r: usize)
    requires
        k <= t.len(),
    ensures
        r == line_start(t@, k as int),
{
    let mut i: usize = k;
    while i > 0 && t[i - 1] != '\n'
        invariant
            i <= k <= t.len(),
            line_start(t@, k as int) == line_start(t@, i as int),
        decreases i,
    {
        i -= 1;
    }
    i
}

/// Offset of the line break that ends the line holding offset `k`, or the text's length.
fn find_line_end(t: &Vec<char>, k: usize) -> (r: usize)
    requires
        k <= t.len(),
    ensures
        r == line_end(t@, k as int),
{
    let mut i: usize = k;
    while i < t.len() && t[i] != '\n'
        invariant
            k <= i <= t.len(),
            line_end(t@, k as int) == line_end(t@, i as int),
        decreases t.len() - i,
    {
        i += 1;
    }
    i
}

fn is_space_char(c: char) -> (r: bool)
    ensures
        r == is_space(c),
{
    c == ' ' || c == '\t' || c == '\n' || c == '\r'
}

/// Offset reached from `k` by passing leftwards over spaces (`space`) or other characters.
fn find_skip_left(t: &Vec<char>, k: usize, space: bool) -> (r: usize)
    requires
        k <= t.len(),
    ensures
        r == skip_left(t@, k as int, space),
{
    let mut i: usize = k;
    while i > 0 && is_space_char(t[i - 1]) == space
        invariant
            i <= k <= t.len(),
            skip_left(t@, k as int, space) == skip_left(t@, i as int, space),
        decreases i,
    {
        i -= 1;
    }
    i
}

/// Offset reached from `k` by passing rightwards over spaces (`space`) or other characters.
fn find_skip_right(t: &Vec<char>, k: usize, space: bool) -> (r: usize)
    requires
        k <= t.len(),
    ensures
        r == skip_right(t@, k as int, space),
{
    let mut i: usize = k;
    while i < t.len() && is_space_char(t[i]) == space
        invariant
            k <= i <= t.len(),
            skip_right(t@, k as int, space) == skip_right(t@, i as int, space),
        decreases t.len() - i,
    {
        i += 1;
    }
    i
}

fn utf8_width(c: char) -> (r: usize)
    ensures
        r == utf8_len(c),
{
    let u = c as u32;
    if u < 0x80 {
        1
    } else if u < 0x800 {
        2
    } else if u < 0x10000 {
        3
    } else {
        4
    }
}

fn max_usize(a: usize, b: usize) -> (r: usize)
    ensures
        r == max(a as int, b as int),
{
    if a <= b {
        b
    } else {
        a
    }
}

fn min_usize(a: usize, b: usize) -> (r: usize)
    ensures
        r == min(a as int, b as int),
{
    if a <= b {
        a
    } else {
        b
    }
}

/// The characters of `s`, in order.
fn chars_of(s: &str) -> (r: Vec<char>)
    ensures
        r@ == s@,
{
    broadcast use vstd::string::axiom_spec_iter;
    let mut r: Vec<char> = Vec::new();
    for c in it: s.chars()
        invariant
            r@ == it.history(),
            it.seq() == s@,
    {
        r.push(c);
    }
    assert(r@ =~= s@);
    r
}

/// Relies on String's `FromIterator<&char>`: the string holds the characters in order.
#[verifier::external_body]
fn string_of(cs: &Vec<char>) -> (r: String)
    ensures
        r@ == cs@,
{
    cs.iter().collect()
}

impl Buffer {
    #[verifier::type_invariant]
    spec fn cursor_in_text(&self) -> bool {
        &&& self.cursor <= self.chars.len()
        &&& self.anchor matches Some(a) ==> a <= self.chars.len()
        &&& self.goal matches Some(g) ==> g <= self.chars.len()
    }

    /// An empty buffer, the cursor at its start.
    pub fn new() -> (r: Buffer)
        ensures
            r@.text == Seq::<char>::empty(),
            r@.cursor == 0,
            r@.anchor is None,
            r@.goal is None,
    {
        Buffer { chars: Vec::new(), cursor: 0, anchor: None, goal: None }
    }

    /// A buffer that holds `text`, the cursor at its start.
    pub fn with(text: &str) -> (r: Buffer)
        ensures
            r@.text == text@,
            r@.cursor == 0,
            r@.anchor is None,
            r@.goal is None,
    {
        Buffer { chars: chars_of(text), cursor: 0, anchor: None, goal: None }
    }

    /// The whole text.
    pub fn text(&self) -> (r: String)
        ensures
            r@ == self@.text,
    {
        string_of(&self.chars)
    }

    /// The cursor, as a number of characters from the start of the text.
    pub fn cursor_offset(&self) -> (r: usize)
        ensures
            r == self@.cursor,
    {
        self.cursor
    }

    /// The other end of the selection, if there is one.
    pub fn anchor(&self) -> (r: Option<usize>)
        ensures
            self@.anchor == (match r {
                Some(a) => Some(a as nat),
                None => None::<nat>,
            }),
    {
        self.anchor
    }

    /// Offset of the position at `line` and UTF-8 byte `column` within that line,
    /// both counted from zero.
    pub fn offset_at(&self, line: usize, column: usize) -> (r: usize)
        ensures
            r == offset_at(self@.text, line as nat, column as nat),
    {
        let t = &self.chars;
        let mut i: usize = 0;
        let mut n: usize = line;
        while n > 0 && i < t.len()
            invariant
                i <= t.len(),
                nth_line_start(t@, 0, line as nat) == nth_line_start(t@, i as int, n as nat),
            decreases t.len() - i,
        {
            if t[i] == '\n' {
                n -= 1;
            }
            i += 1;
        }
        let mut bytes: usize = column;
        while i < t.len() && t[i] != '\n' && utf8_width(t[i]) <= bytes
            invariant
                i <= t.len(),
                offset_at(t@, line as nat, column as nat) == advance(t@, i as int, bytes as nat),
            decreases t.len() - i,
        {
            bytes -= utf8_width(t[i]);
            i += 1;
        }
        i
    }

    /// Line and column of the cursor, both counted from zero.
    pub fn cursor_position(&self) -> (r: (usize, usize))
        ensures
            r.0 == line_index(self@.text, self@.cursor as int),
            r.1 == self@.cursor - line_start(self@.text, self@.cursor as int),
    {
        proof { use_type_invariant(self); }
        let t = &self.chars;
        let k = self.cursor;
        let mut line: usize = 0;
        let mut i: usize = 0;
        while i < k
            invariant
                k <= t.len(),
                i <= k,
                line == line_index(t@, i as int),
                line <= i,
            decreases k - i,
        {
            if t[i] == '\n' {
                line += 1;
            }
            i += 1;
        }
        let start = find_line_start(t, k);
        proof { lemma_line_start_bounds(t@, k as int); }
        (line, k - start)
    }

    /// Applies one edit.
    pub fn edit(&mut self, action: EditAction)
        ensures
            final(self)@ == apply_edit(old(self)@, action),
    {
        self.apply(&action);
    }

    fn apply(&mut self, action: &EditAction)
        ensures
            final(self)@ == apply_edit(old(self)@, *action),
    {
        proof { use_type_invariant(&*self); }
        let k = self.cursor;
        let len = self.chars.len();
        let (lo, hi) = match self.anchor {
            Some(a) => (min_usize(a, k), max_usize(a, k)),
            None => (k, k),
        };
        let kept = match self.anchor {
            Some(a) => a,
            None => k,
        };
        match action {
            EditAction::Move(m) => {
                let (target, goal) = self.motion(*m);
                *self = Buffer { chars: self.take_chars(), cursor: target, anchor: None, goal };
            },
            EditAction::Select(m) => {
                let (target, goal) = self.motion(*m);
                *self = Buffer { chars: self.take_chars(), cursor: target, anchor: Some(kept), goal };
            },
            EditAction::SelectWord => {
                let start = find_skip_left(&self.chars, k, false);
                let end = find_skip_right(&self.chars, k, false);
                proof {
                    lemma_skip_left_bounds(self.chars@, k as int, false);
                    lemma_skip_right_bounds(self.chars@, k as int, false);
                }
                *self = Buffer { chars: self.take_chars(), cursor: end, anchor: Some(start), goal: None };
            },
            EditAction::SelectLine => {
                let start = find_line_start(&self.chars, k);
                let end = find_line_end(&self.chars, k);
                proof {
                    lemma_line_start_bounds(self.chars@, k as int);
                    lemma_line_end_bounds(self.chars@, k as int);
                }
                let stop = if end < len {
                    end + 1
                } else {
                    len
                };
                *self = Buffer { chars: self.take_chars(), cursor: stop, anchor: Some(start), goal: None };
            },
            EditAction::MoveTo(o) => {
                let target = min_usize(*o, len);
                *self = Buffer { chars: self.take_chars(), cursor: target, anchor: None, goal: None };
            },
            EditAction::SelectTo(o) => {
                let target = min_usize(*o, len);
                *self = Buffer { chars: self.take_chars(), cursor: target, anchor: Some(kept), goal: None };
            },
            EditAction::Insert(c) => {
                let one = vec![*c];
                assert(one@ =~= seq![*c]);
                self.replace(lo, hi, &one);
            },
            EditAction::Paste(s) => {
                let ins = chars_of(s.as_str());
                self.replace(lo, hi, &ins);
            },
            EditAction::Enter => {
                let one = vec!['\n'];
                assert(one@ =~= seq!['\n']);
                self.replace(lo, hi, &one);
            },
            EditAction::Backspace => {
                if lo < hi {
                    self.replace(lo, hi, &Vec::<char>::new());
                } else if k > 0 {
                    self.replace(k - 1, k, &Vec::<char>::new());
                } else {
                    *self = Buffer { chars: self.take_chars(), cursor: k, anchor: None, goal: None };
                }
            },
            EditAction::Delete => {
                if lo < hi {
                    self.replace(lo, hi, &Vec::<char>::new());
                } else if k < len {
                    self.replace(k, k + 1, &Vec::<char>::new());
                } else {
                    *self = Buffer { chars: self.take_chars(), cursor: k, anchor: None, goal: None };
                }
            },
        }
    }

    /// The text, leaving the buffer empty.
    fn take_chars(&mut self) -> (r: Vec<char>)
        ensures
            r@ == old(self)@.text,
    {
        let mut b = Buffer::new();
        std::mem::swap(self, &mut b);
        let Buffer { chars, cursor: _, anchor: _, goal: _ } = b;
        chars
    }

    /// Puts `ins` in place of the characters from `lo` to `hi`, the cursor after it,
    /// and drops the selection.
    fn replace(&mut self, lo: usize, hi: usize, ins: &Vec<char>)
        requires
            lo <= hi <= old(self)@.text.len(),
        ensures
            final(self)@ == (BufferView {
                text: splice(old(self)@.text, lo as int, hi as int, ins@),
                cursor: (lo + ins@.len()) as nat,
                anchor: None,
                goal: None,
            }),
    {
        let ghost t = self@.text;
        if lo == hi && ins.len() == 1 {
            let mut chars = self.take_chars();
            chars.insert(lo, ins[0]);
            assert(chars@ =~= splice(t, lo as int, hi as int, ins@));
            let n = chars.len();
            assert(lo + 1 <= n);
            *self = Buffer { chars, cursor: lo + 1, anchor: None, goal: None };
        } else if lo < hi && hi - lo == 1 && ins.len() == 0 {
            let mut chars = self.take_chars();
            chars.remove(lo);
            assert(chars@ =~= splice(t, lo as int, hi as int, ins@));
            *self = Buffer { chars, cursor: lo, anchor: None, goal: None };
        } else {
            let chars = splice_vec(&self.chars, lo, hi, ins);
            let n = chars.len();
            assert(n == t.len() - (hi - lo) + ins.len());
            *self = Buffer { chars, cursor: lo + ins.len(), anchor: None, goal: None };
        }
    }

    /// Cursor offset after motion `m`.
    fn motion(&self, m: Motion) -> (r: (usize, Option<usize>))
        ensures
            r.0 == motion_target(self@.text, self@.cursor as int, m, column_goal(self@)),
            r.0 <= self@.text.len(),
            goal_after(self@, m) == (match r.1 {
                Some(g) => Some(g as nat),
                None => None::<nat>,
            }),
            r.1 matches Some(g) ==> g <= self@.text.len(),
    {
        proof { use_type_invariant(self); }
        let t = &self.chars;
        let k = self.cursor;
        let start = find_line_start(t, k);
        proof { lemma_line_start_bounds(t@, k as int); }
        let col = match self.goal {
            Some(g) => g,
            None => k - start,
        };
        proof { lemma_motion_in_text(t@, k as int, m, col as int); }
        let goal = if m == Motion::Up || m == Motion::Down {
            Some(col)
        } else {
            None
        };
        let target = match m {
            Motion::Left => if k == 0 {
                0
            } else {
                k - 1
            },
            Motion::Right => if k < t.len() {
                k + 1
            } else {
                k
            },
            Motion::Up => {
                let ls = find_line_start(t, k);
                proof { lemma_line_start_bounds(t@, k as int); }
                if ls == 0 {
                    0
                } else {
                    let prev = find_line_start(t, ls - 1);
                    proof { lemma_line_start_bounds(t@, ls - 1); }
                    if col <= (ls - 1) - prev {
                        prev + col
                    } else {
                        ls - 1
                    }
                }
            },
            Motion::Down => {
                let le = find_line_end(t, k);
                proof {
                    lemma_line_end_bounds(t@, k as int);
                    lemma_line_start_bounds(t@, k as int);
                }
                if le == t.len() {
                    t.len()
                } else {
                    let ls = find_line_start(t, k);
                    let next_end = find_line_end(t, le + 1);
                    proof { lemma_line_end_bounds(t@, le + 1); }
                    if col <= next_end - (le + 1) {
                        le + 1 + col
                    } else {
                        next_end
                    }
                }
            },
            Motion::Home => find_line_start(t, k),
            Motion::End => find_line_end(t, k),
            Motion::DocumentStart => 0,
            Motion::DocumentEnd => t.len(),
            Motion::WordLeft => {
                let i = find_skip_left(t, k, true);
                proof { lemma_skip_left_bounds(t@, k as int, true); }
                find_skip_left(t, i, false)
            },
            Motion::WordRight => {
                let i = find_skip_right(t, k, true);
                proof { lemma_skip_right_bounds(t@, k as int, true); }
                find_skip_right(t, i, false)
            },
        };
        (target, goal)
    }

    /// Applies the edits of `actions`, from first to last.
    pub fn replay(&mut self, actions: &Vec<EditAction>)
        ensures
            final(self)@ == apply_edits(old(self)@, actions@),
    {
        let mut i: usize = 0;
        while i < actions.len()
            invariant
                i <= actions.len(),
                self@ == apply_edits(old(self)@, actions@.subrange(0, i as int)),
            decreases actions.len() - i,
        {
            proof {
                assert(actions@.subrange(0, i + 1).drop_last() == actions@.subrange(0, i as int));
            }
            self.apply(&actions[i]);
            i += 1;
        }
        proof { assert(actions@.subrange(0, actions.len() as int) == actions@); }
    }
}

} // verus!
