use vstd::prelude::*;

verus! {

/// Number of texts that can be on screen at once.
pub const RENDERER_COUNT: usize = 5;

#[derive(Clone, Copy, PartialEq, Eq, Debug, Structural)]
pub enum Size {
    Small,
    Medium,
}

/// How a text is laid out in its box.
#[derive(Clone, Copy, PartialEq, Eq, Debug, Structural)]
pub enum TextAlignment {
    Left,
    Right,
    Center,
    Justify,
}

/// What a text shows: a fixed string, or nothing.
#[derive(Clone, Copy, Debug)]
pub enum TextContent {
    Ref(&'static str),
    No,
}

/// A text on screen.
#[derive(Clone, Copy, Debug)]
pub struct Text {
    pub text: TextContent,
    pub alignment: TextAlignment,
    pub size: Size,
}

/// Whether a text is drawn.
#[derive(Clone, Copy, PartialEq, Eq, Debug, Structural)]
pub struct TextVisibility {
    pub visible: bool,
}

impl TextContent {
    /// The characters shown, if any.
    pub open spec fn spec_chars(self) -> Option<Seq<char>> {
        match self {
            TextContent::Ref(s) => Some(s@),
            TextContent::No => None,
        }
    }

    pub fn as_ref(&self) -> (r: Option<&'static str>)
        ensures
            match *self {
                TextContent::Ref(s) => r == Some(s),
                TextContent::No => r is None,
            },
    {
        match self {
            TextContent::Ref(s) => Some(*s),
            TextContent::No => None,
        }
    }

    /// Whether two contents show the same characters.
    pub fn same_as(&self, other: &TextContent) -> (r: bool)
        ensures
            r == (self.spec_chars() == other.spec_chars()),
    {
        match (*self, *other) {
            (TextContent::Ref(a), TextContent::Ref(b)) => {
                let x = a.to_owned();
                let y = b.to_owned();
                x == y
            },
            (TextContent::No, TextContent::No) => true,
            _ => false,
        }
    }
}

impl Default for TextContent {
    fn default() -> (r: TextContent)
        ensures
            r is No,
    {
        TextContent::No
    }
}

impl Default for Size {
    fn default() -> (r: Size)
        ensures
            r == Size::Medium,
    {
        Size::Medium
    }
}

impl Default for TextVisibility {
    fn default() -> (r: TextVisibility)
        ensures
            r.visible,
    {
        TextVisibility { visible: true }
    }
}

impl Default for Text {
    fn default() -> (r: Text)
        ensures
            r.text is No,
            r.alignment == TextAlignment::Left,
            r.size == Size::Medium,
    {
        Text { text: TextContent::No, alignment: TextAlignment::Left, size: Size::Medium }
    }
}

impl From<&'static str> for Text {
    fn from(value: &'static str) -> (r: Text)
        ensures
            r.text == TextContent::Ref(value),
            r.alignment == TextAlignment::Left,
            r.size == Size::Medium,
    {
        Text { text: TextContent::Ref(value), alignment: TextAlignment::Left, size: Size::Medium }
    }
}

impl vstd::std_specs::convert::FromSpecImpl<&'static str> for Text {
    open spec fn obeys_from_spec() -> bool {
        true
    }

    open spec fn from_spec(v: &'static str) -> Text {
        Text { text: TextContent::Ref(v), alignment: TextAlignment::Left, size: Size::Medium }
    }
}

impl Text {
    /// The same text showing `content`.
    pub fn with_content(&self, content: TextContent) -> (r: Text)
        ensures
            r == (Text { text: content, ..*self }),
    {
        let mut new = *self;
        new.text = content;
        new
    }

    /// The text to put in place when it should show `content`, or `None` when
    /// it already shows those characters.
    pub fn update(&self, content: TextContent) -> (r: Option<Text>)
        ensures
            self.text.spec_chars() == content.spec_chars() ==> r is None,
            self.text.spec_chars() != content.spec_chars() ==> r == Some(
                Text { text: content, ..*self },
            ),
    {
        if self.text.same_as(&content) {
            None
        } else {
            Some(self.with_content(content))
        }
    }
}

/// The first free slot of the text renderer pool, or `None` when all are taken.
pub fn first_free_slot(taken: &[bool; RENDERER_COUNT]) -> (r: Option<usize>)
    ensures
        r is None <==> forall|k: int| 0 <= k < RENDERER_COUNT ==> taken@[k],
        r is Some ==> r->0 < RENDERER_COUNT && !taken@[r->0 as int] && forall|k: int|
            0 <= k < r->0 ==> taken@[k],
{
    let mut i: usize = 0;
    while i < RENDERER_COUNT
        invariant
            i <= RENDERER_COUNT,
            forall|k: int| 0 <= k < i ==> taken@[k],
        decreases RENDERER_COUNT - i,
    {
        if !taken[i] {
            return Some(i);
        }
        i = i + 1;
    }
    None
}

} // verus!
