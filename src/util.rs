use vstd::prelude::*;

verus! {

/// Relies on `String::push`: the character is appended at the end.
#[verifier::external_body]
pub(crate) fn push_char(s: &mut String, c: char)
    ensures
        final(s)@ == old(s)@.push(c),
{
    s.push(c)
}

/// A value that can be appended to a [`TextBuilder`] as text.
pub trait TextSource {
    spec fn text_view(&self) -> Seq<char>;

    fn as_text(&self) -> (r: &str)
        ensures
            r@ == self.text_view(),
    ;
}

impl TextSource for String {
    open spec fn text_view(&self) -> Seq<char> {
        self@
    }

    fn as_text(&self) -> (r: &str) {
        self.as_str()
    }
}

impl<'a> TextSource for &'a str {
    open spec fn text_view(&self) -> Seq<char> {
        (*self)@
    }

    fn as_text(&self) -> (r: &str) {
        *self
    }
}

/// Accumulates `(prefix, value, suffix)` fragments into one string.
pub struct TextBuilder {
    buffer: String,
}

impl View for TextBuilder {
    type V = Seq<char>;

    closed spec fn view(&self) -> Seq<char> {
        self.buffer@
    }
}

impl TextBuilder {
    pub fn new() -> (r: Self)
        ensures
            r@ == Seq::<char>::empty(),
    {
        TextBuilder { buffer: String::new() }
    }

    /// Appends the prefix, the value and the suffix, in that order.
    pub fn text<T: TextSource>(self, prefix: &str, text: T, suffix: &str) -> (r: Self)
        ensures
            r@ == self@ + prefix@ + text.text_view() + suffix@,
    {
        let mut buffer = self.buffer;
        buffer.append(prefix);
        buffer.append(text.as_text());
        buffer.append(suffix);
        TextBuilder { buffer }
    }

    /// Appends the prefix, the value and the suffix when the value is present;
    /// appends nothing at all when it is absent.
    pub fn text_opt<T: TextSource>(self, prefix: &str, text: &Option<T>, suffix: &str) -> (r: Self)
        ensures
            r@ == match text {
                Some(t) => self@ + prefix@ + t.text_view() + suffix@,
                None => self@,
            },
    {
        match text {
            Some(inner) => {
                let mut buffer = self.buffer;
                buffer.append(prefix);
                buffer.append(inner.as_text());
                buffer.append(suffix);
                TextBuilder { buffer }
            },
            None => self,
        }
    }

    pub fn build(self) -> (r: String)
        ensures
            r@ == self@,
    {
        self.buffer
    }
}

/// The characters that markdown escaping prefixes with a backslash.
pub open spec fn is_reserved(c: char) -> bool {
    c == '_' || c == '*' || c == '[' || c == ']' || c == '(' || c == ')' || c == '~' || c == '`'
        || c == '>' || c == '#' || c == '+' || c == '-' || c == '=' || c == '|' || c == '{'
        || c == '}' || c == '.' || c == '!'
}

/// One character as it appears after escaping.
pub open spec fn escape_char(c: char) -> Seq<char> {
    if is_reserved(c) {
        seq!['\\', c]
    } else {
        seq![c]
    }
}

/// A text with every reserved character preceded by a backslash.
pub open spec fn escaped(s: Seq<char>) -> Seq<char>
    decreases s.len(),
{
    if s.len() == 0 {
        Seq::empty()
    } else {
        escaped(s.drop_last()) + escape_char(s.last())
    }
}

/// Escaping adds exactly one character, a backslash, for each reserved
/// character of the text.
pub proof fn lemma_escaped_len(s: Seq<char>)
    ensures
        escaped(s).len() == s.len() + s.filter(|c: char| is_reserved(c)).len(),
    decreases s.len(),
{
    reveal_with_fuel(Seq::filter, 1);
    if s.len() > 0 {
        lemma_escaped_len(s.drop_last());
    }
}

pub fn is_markdown_reserved(c: char) -> (r: bool)
    ensures
        r == is_reserved(c),
{
    c == '_' || c == '*' || c == '[' || c == ']' || c == '(' || c == ')' || c == '~' || c == '`'
        || c == '>' || c == '#' || c == '+' || c == '-' || c == '=' || c == '|' || c == '{'
        || c == '}' || c == '.' || c == '!'
}

/// Escapes every reserved markdown character of `text` with a backslash,
/// keeping all other characters and their order.
pub fn escape_markdown(text: &str) -> (r: String)
    ensures
        r@ == escaped(text@),
{
    let mut buffer = String::new();
    for letter in it: text.chars()
        invariant
            it.seq() == text@,
            buffer@ == escaped(text@.take(it.index() as int)),
    {
        proof {
            let i = it.index() as int;
            assert(text@.take(i + 1).drop_last() =~= text@.take(i));
        }
        if is_markdown_reserved(letter) {
            push_char(&mut buffer, '\\');
        }
        push_char(&mut buffer, letter);
    }
    proof {
        assert(text@.take(text@.len() as int) =~= text@);
    }
    buffer
}

} // verus!
