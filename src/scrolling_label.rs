use vstd::prelude::*;
use vstd::string::StrSliceExecFns;

verus! {

/// The width of the fade on both sides of a scrolling label.
#[derive(Debug, Clone, Copy, PartialEq, Eq, Structural)]
pub enum FadeSize {
    /// A share of the label's width, in percent.
    Percent(u32),
    /// A width in pixels.
    Pixels(u32),
}

pub open spec fn is_digit(c: char) -> bool {
    '0' <= c <= '9'
}

pub open spec fn digit_value(c: char) -> int {
    c as int - '0' as int
}

/// The number that a string of decimal digits writes.
pub open spec fn digits_value(s: Seq<char>) -> int
    decreases s.len(),
{
    if s.len() == 0 {
        0
    } else {
        digits_value(s.drop_last()) * 10 + digit_value(s.last())
    }
}

/// A non-empty string of decimal digits whose value fits in a `u32`.
pub open spec fn is_u32_number(s: Seq<char>) -> bool {
    &&& s.len() > 0
    &&& forall|i: int| 0 <= i < s.len() ==> #[trigger] is_digit(s[i])
    &&& digits_value(s) <= u32::MAX
}

/// What a fade size setting means: `N%` is a percentage, `Npx` or a bare `N`
/// a number of pixels; anything else means nothing.
pub open spec fn fade_size_of(s: Seq<char>) -> Option<FadeSize> {
    if s.len() > 0 && s.last() == '%' && is_u32_number(s.drop_last()) {
        Some(FadeSize::Percent(digits_value(s.drop_last()) as u32))
    } else if s.len() > 1 && s[s.len() - 2] == 'p' && s.last() == 'x' && is_u32_number(
        s.subrange(0, s.len() - 2),
    ) {
        Some(FadeSize::Pixels(digits_value(s.subrange(0, s.len() - 2)) as u32))
    } else if is_u32_number(s) {
        Some(FadeSize::Pixels(digits_value(s) as u32))
    } else {
        None
    }
}

proof fn digits_value_nonneg(s: Seq<char>)
    requires
        forall|i: int| 0 <= i < s.len() ==> #[trigger] is_digit(s[i]),
    ensures
        digits_value(s) >= 0,
    decreases s.len(),
{
    if s.len() > 0 {
        assert(is_digit(s[s.len() - 1]));
        digits_value_nonneg(s.drop_last());
    }
}

proof fn prefix_value_bound(s: Seq<char>, k: int)
    requires
        0 <= k <= s.len(),
        forall|i: int| 0 <= i < s.len() ==> #[trigger] is_digit(s[i]),
    ensures
        digits_value(s.subrange(0, k)) <= digits_value(s),
    decreases s.len(),
{
    if k < s.len() {
        assert(s.drop_last().subrange(0, k) =~= s.subrange(0, k));
        assert(forall|i: int| 0 <= i < s.drop_last().len() ==> #[trigger] is_digit(s.drop_last()[i]) == is_digit(s[i]));
        prefix_value_bound(s.drop_last(), k);
        digits_value_nonneg(s.drop_last());
        assert(is_digit(s[s.len() - 1]));
    } else {
        assert(s.subrange(0, k) =~= s);
    }
}

/// The value of the digits `s[0..end]`, if they are all digits, there is at
/// least one, and the value fits in a `u32`.
fn parse_u32_prefix(s: &str, end: usize) -> (r: Option<u32>)
    requires
        end <= s@.len(),
    ensures
        r is Some <==> is_u32_number(s@.subrange(0, end as int)),
        r matches Some(v) ==> v == digits_value(s@.subrange(0, end as int)),
{
    let ghost p = s@.subrange(0, end as int);
    if end == 0 {
        return None;
    }
    let mut value: u64 = 0;
    let mut i: usize = 0;
    while i < end
        invariant
            0 <= i <= end <= s@.len(),
            p == s@.subrange(0, end as int),
            forall|j: int| 0 <= j < i ==> #[trigger] is_digit(s@[j]),
            value == digits_value(s@.subrange(0, i as int)),
            value <= u32::MAX,
        decreases end - i,
    {
        let c = s.get_char(i);
        assert(s@.subrange(0, i + 1).drop_last() =~= s@.subrange(0, i as int));
        if c < '0' || c > '9' {
            assert(!is_digit(p[i as int]));
            return None;
        }
        let d = (c as u64) - ('0' as u64);
        value = value * 10 + d;
        i = i + 1;
        if value > 4294967295u64 {
            proof {
                if is_u32_number(p) {
                    prefix_value_bound(p, i as int);
                    assert(p.subrange(0, i as int) =~= s@.subrange(0, i as int));
                }
            }
            return None;
        }
    }
    assert(p =~= s@.subrange(0, i as int));
    Some(value as u32)
}

/// Reads a fade size setting: `N%`, `Npx` or `N`.
pub fn parse_fade_size(s: &str) -> (r: Option<FadeSize>)
    ensures
        r == fade_size_of(s@),
{
    let n = s.unicode_len();
    if n > 0 && s.get_char(n - 1) == '%' {
        assert(s@.drop_last() =~= s@.subrange(0, n - 1));
        match parse_u32_prefix(s, n - 1) {
            Some(v) => {
                return Some(FadeSize::Percent(v));
            },
            None => {},
        }
    }
    if n > 1 && s.get_char(n - 2) == 'p' && s.get_char(n - 1) == 'x' {
        match parse_u32_prefix(s, n - 2) {
            Some(v) => {
                proof {
                    if s@.len() > 0 && s@.last() == '%' {
                        assert(false);
                    }
                }
                return Some(FadeSize::Pixels(v));
            },
            None => {},
        }
    }
    assert(s@.subrange(0, n as int) =~= s@);
    match parse_u32_prefix(s, n) {
        Some(v) => {
            proof {
                if s@.len() > 0 && s@.last() == '%' {
                    assert(!is_digit(s@[n - 1]));
                }
                if s@.len() > 1 && s@.last() == 'x' {
                    assert(!is_digit(s@[n - 1]));
                }
            }
            Some(FadeSize::Pixels(v))
        },
        None => None,
    }
}

/// A text label with a maximum width, which scrolls its text when the text
/// is wider than that.
///
/// The widget itself lives in the presentation layer; this is what it
/// decides on: the text, the maximum width (negative while unset), the
/// measured width of the text and the fade size setting.
pub struct ScrollingLabel {
    text: String,
    max_width: i32,
    text_width: i32,
    fade_size: Option<FadeSize>,
}

pub struct LabelView {
    pub text: Seq<char>,
    pub max_width: i32,
    pub text_width: i32,
    pub fade_size: Option<FadeSize>,
}

impl LabelView {
    /// Scrolling is on when a maximum width is set and the text exceeds it.
    pub open spec fn active(self) -> bool {
        self.max_width >= 0 && self.text_width > self.max_width
    }
}

impl View for ScrollingLabel {
    type V = LabelView;

    closed spec fn view(&self) -> LabelView {
        LabelView {
            text: self.text@,
            max_width: self.max_width,
            text_width: self.text_width,
            fade_size: self.fade_size,
        }
    }
}

impl ScrollingLabel {
    /// An empty label with no maximum width and no fade size set.
    pub fn new() -> (r: ScrollingLabel)
        ensures
            r@ == (LabelView { text: Seq::empty(), max_width: -1i32, text_width: 0i32, fade_size: None }),
    {
        ScrollingLabel { text: String::new(), max_width: -1, text_width: 0, fade_size: None }
    }

    pub fn text(&self) -> (r: &str)
        ensures
            r@ == self@.text,
    {
        self.text.as_str()
    }

    /// Replaces the text; its width is unknown until measured again.
    pub fn set_text(&mut self, text: String)
        ensures
            final(self)@ == (LabelView { text: text@, text_width: 0, ..old(self)@ }),
    {
        self.text = text;
        self.text_width = 0;
    }

    /// Records the width that the text measures when laid out.
    pub fn set_text_width(&mut self, width: i32)
        ensures
            final(self)@ == (LabelView { text_width: width, ..old(self)@ }),
    {
        self.text_width = width;
    }

    pub fn max_width(&self) -> (r: i32)
        ensures
            r == self@.max_width,
    {
        self.max_width
    }

    pub fn set_max_width(&mut self, max_width: i32)
        ensures
            final(self)@ == (LabelView { max_width, ..old(self)@ }),
    {
        self.max_width = max_width;
    }

    /// Whether the text scrolls.
    pub fn active(&self) -> (r: bool)
        ensures
            r == self@.active(),
    {
        self.max_width >= 0 && self.text_width > self.max_width
    }

    pub fn fade_size(&self) -> (r: Option<FadeSize>)
        ensures
            r == self@.fade_size,
    {
        self.fade_size
    }

    /// Applies a fade size setting; one that means nothing is refused and
    /// leaves the label as it was.
    pub fn set_config_fade_size(&mut self, setting: &str) -> (r: bool)
        ensures
            r == fade_size_of(setting@) is Some,
            r ==> final(self)@ == (LabelView { fade_size: fade_size_of(setting@), ..old(self)@ }),
            !r ==> final(self)@ == old(self)@,
    {
        match parse_fade_size(setting) {
            Some(f) => {
                self.fade_size = Some(f);
                true
            },
            None => false,
        }
    }
}

} // verus!
