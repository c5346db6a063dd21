use vstd::prelude::*;

use crate::contexts::{draws_text, Env, PaintCtx};
use crate::geometry::{first_containing, lemma_first_containing, Point, Rect, Size};

verus! {

/// A color, as 8-bit red, green, blue and alpha.
#[derive(Clone, Copy, Debug, PartialEq, Eq, Structural)]
pub struct Color {
    pub r: u8,
    pub g: u8,
    pub b: u8,
    pub a: u8,
}

impl Color {
    /// An opaque color.
    pub fn rgb8(r: u8, g: u8, b: u8) -> (c: Color)
        ensures
            c == (Color { r, g, b, a: 255 }),
    {
        Color { r, g, b, a: 255 }
    }
}

/// A generic font family.
#[derive(Clone, Copy, Debug, PartialEq, Eq, Structural)]
pub enum FontFamily {
    SystemUi,
    Serif,
    SansSerif,
    Monospace,
}

/// A font: family, size in logical pixels, and weight (400 is regular).
#[derive(Clone, Copy, Debug, PartialEq, Eq, Structural)]
pub struct FontDescriptor {
    pub family: FontFamily,
    pub size: u32,
    pub weight: u16,
}

/// How lines are aligned within the available width.
#[derive(Clone, Copy, Debug, PartialEq, Eq, Structural)]
pub enum TextAlignment {
    Start,
    End,
    Center,
    Justified,
}

/// A color that the environment supplies.
#[derive(Clone, Copy, Debug, PartialEq, Eq, Structural)]
pub enum ColorKey {
    Text,
    DisabledText,
}

/// A font that the environment supplies.
#[derive(Clone, Copy, Debug, PartialEq, Eq, Structural)]
pub enum FontKey {
    Ui,
}

/// A text size that the environment supplies.
#[derive(Clone, Copy, Debug, PartialEq, Eq, Structural)]
pub enum SizeKey {
    Text,
}

/// A style value given either directly or as a key into the environment.
#[derive(Clone, Copy, Debug, PartialEq, Eq, Structural)]
pub enum KeyOrValue<T, K> {
    Concrete(T),
    Key(K),
}

pub open spec fn color_in(v: KeyOrValue<Color, ColorKey>, env: Env) -> Color {
    match v {
        KeyOrValue::Concrete(c) => c,
        KeyOrValue::Key(ColorKey::Text) => env.text_color,
        KeyOrValue::Key(ColorKey::DisabledText) => env.disabled_text_color,
    }
}

pub open spec fn font_in(v: KeyOrValue<FontDescriptor, FontKey>, env: Env) -> FontDescriptor {
    match v {
        KeyOrValue::Concrete(f) => f,
        KeyOrValue::Key(FontKey::Ui) => env.ui_font,
    }
}

pub open spec fn size_in(v: KeyOrValue<u32, SizeKey>, env: Env) -> u32 {
    match v {
        KeyOrValue::Concrete(s) => s,
        KeyOrValue::Key(SizeKey::Text) => env.text_size,
    }
}

/// The color that `v` stands for in `env`.
pub fn resolve_color(v: KeyOrValue<Color, ColorKey>, env: &Env) -> (r: Color)
    ensures
        r == color_in(v, *env),
{
    match v {
        KeyOrValue::Concrete(c) => c,
        KeyOrValue::Key(ColorKey::Text) => env.text_color,
        KeyOrValue::Key(ColorKey::DisabledText) => env.disabled_text_color,
    }
}

/// The font that `v` stands for in `env`.
pub fn resolve_font(v: KeyOrValue<FontDescriptor, FontKey>, env: &Env) -> (r: FontDescriptor)
    ensures
        r == font_in(v, *env),
{
    match v {
        KeyOrValue::Concrete(f) => f,
        KeyOrValue::Key(FontKey::Ui) => env.ui_font,
    }
}

/// The text size that `v` stands for in `env`.
pub fn resolve_size(v: KeyOrValue<u32, SizeKey>, env: &Env) -> (r: u32)
    ensures
        r == size_in(v, *env),
{
    match v {
        KeyOrValue::Concrete(s) => s,
        KeyOrValue::Key(SizeKey::Text) => env.text_size,
    }
}

/// The measurements of laid-out text.
#[derive(Clone, Copy, Debug, PartialEq, Eq, Structural)]
pub struct TextMetrics {
    /// The size of the text block.
    pub size: Size,
    /// The distance from the top of the block down to the first baseline.
    pub first_baseline: u32,
}

/// Laid-out text, as the text engine returns it.
#[derive(Clone, Debug)]
pub struct BuiltText {
    pub metrics: TextMetrics,
    /// The area of each embedded link, in the text's coordinate space.
    pub links: Vec<Rect>,
}

/// Everything the text engine needs to lay out text, with the style values
/// resolved against the environment.
#[derive(Clone, Debug)]
pub struct TextRequest {
    pub text: String,
    pub font: FontDescriptor,
    pub color: Color,
    pub alignment: TextAlignment,
    /// The width to wrap lines at; `None` for no wrapping.
    pub wrap_width: Option<u32>,
}

/// Lays out text: shaping, line breaking and measuring are done here.
pub trait TextEngine {
    fn build(&mut self, request: &TextRequest) -> BuiltText;
}

/// Text together with the style it is laid out in, and the last layout of
/// it, which any change of text or style discards.
pub struct TextLayout {
    pub text: String,
    pub font: KeyOrValue<FontDescriptor, FontKey>,
    /// Overrides the font's size when set.
    pub text_size: Option<KeyOrValue<u32, SizeKey>>,
    pub text_color: KeyOrValue<Color, ColorKey>,
    pub alignment: TextAlignment,
    pub wrap_width: Option<u32>,
    pub built: Option<BuiltText>,
}

impl TextLayout {
    /// The font that the layout asks for in `env`, its size overridden.
    pub open spec fn font_spec(self, env: Env) -> FontDescriptor {
        let f = font_in(self.font, env);
        match self.text_size {
            Some(s) => FontDescriptor { size: size_in(s, env), ..f },
            None => f,
        }
    }

    /// The metrics of the last layout, zero where there is none.
    pub open spec fn metrics_spec(self) -> TextMetrics {
        match self.built {
            Some(b) => b.metrics,
            None => TextMetrics { size: Size { width: 0, height: 0 }, first_baseline: 0 },
        }
    }

    /// The link areas of the last layout, none where there is none.
    pub open spec fn links_spec(self) -> Seq<Rect> {
        match self.built {
            Some(b) => b.links@,
            None => Seq::empty(),
        }
    }

    /// Empty text in the environment's font and text color, aligned at
    /// the start and not wrapped.
    pub fn new() -> (r: TextLayout)
        ensures
            r.text@.len() == 0,
            r.font == KeyOrValue::<FontDescriptor, FontKey>::Key(FontKey::Ui),
            r.text_size == None::<KeyOrValue<u32, SizeKey>>,
            r.text_color == KeyOrValue::<Color, ColorKey>::Key(ColorKey::Text),
            r.alignment == TextAlignment::Start,
            r.wrap_width == None::<u32>,
            r.built is None,
    {
        TextLayout {
            text: String::new(),
            font: KeyOrValue::Key(FontKey::Ui),
            text_size: None,
            text_color: KeyOrValue::Key(ColorKey::Text),
            alignment: TextAlignment::Start,
            wrap_width: None,
            built: None,
        }
    }

    pub fn set_text(&mut self, text: String)
        ensures
            *final(self) == (TextLayout { text, built: None, ..*old(self) }),
    {
        self.text = text;
        self.built = None;
    }

    pub fn set_font(&mut self, font: KeyOrValue<FontDescriptor, FontKey>)
        ensures
            *final(self) == (TextLayout { font, built: None, ..*old(self) }),
    {
        self.font = font;
        self.built = None;
    }

    pub fn set_text_size(&mut self, size: KeyOrValue<u32, SizeKey>)
        ensures
            *final(self) == (TextLayout { text_size: Some(size), built: None, ..*old(self) }),
    {
        self.text_size = Some(size);
        self.built = None;
    }

    pub fn set_text_color(&mut self, color: KeyOrValue<Color, ColorKey>)
        ensures
            *final(self) == (TextLayout { text_color: color, built: None, ..*old(self) }),
    {
        self.text_color = color;
        self.built = None;
    }

    pub fn set_text_alignment(&mut self, alignment: TextAlignment)
        ensures
            *final(self) == (TextLayout { alignment, built: None, ..*old(self) }),
    {
        self.alignment = alignment;
        self.built = None;
    }

    /// Sets the wrap width; the last layout is kept only where the width
    /// did not change.
    pub fn set_wrap_width(&mut self, width: Option<u32>)
        ensures
            *final(self) == if old(self).wrap_width == width {
                *old(self)
            } else {
                TextLayout { wrap_width: width, built: None, ..*old(self) }
            },
    {
        let same = match (self.wrap_width, width) {
            (Some(a), Some(b)) => a == b,
            (None, None) => true,
            _ => false,
        };
        if !same {
            self.wrap_width = width;
            self.built = None;
        }
    }

    /// Whether the layout must be built before it is measured or drawn.
    pub fn needs_rebuild(&self) -> (r: bool)
        ensures
            r == self.built is None,
    {
        self.built.is_none()
    }

    /// What the text engine is asked to lay out, in `env`.
    pub fn request(&self, env: &Env) -> (r: TextRequest)
        ensures
            r.text@ == self.text@,
            r.font == self.font_spec(*env),
            r.color == color_in(self.text_color, *env),
            r.alignment == self.alignment,
            r.wrap_width == self.wrap_width,
    {
        let base = resolve_font(self.font, env);
        let font = match self.text_size {
            Some(s) => FontDescriptor { size: resolve_size(s, env), ..base },
            None => base,
        };
        TextRequest {
            text: self.text.clone(),
            font,
            color: resolve_color(self.text_color, env),
            alignment: self.alignment,
            wrap_width: self.wrap_width,
        }
    }

    /// Lays the text out with `engine` where there is no layout of it yet.
    pub fn rebuild_if_needed<E: TextEngine>(&mut self, engine: &mut E, env: &Env)
        ensures
            *final(self) == (TextLayout { built: final(self).built, ..*old(self) }),
            final(self).built is Some,
            old(self).built is Some ==> final(self).built == old(self).built,
    {
        if self.built.is_none() {
            let request = self.request(env);
            let built = engine.build(&request);
            self.built = Some(built);
        }
    }

    /// The metrics of the last layout, zero where there is none.
    pub fn layout_metrics(&self) -> (r: TextMetrics)
        ensures
            r == self.metrics_spec(),
    {
        match &self.built {
            Some(b) => b.metrics,
            None => TextMetrics { size: Size { width: 0, height: 0 }, first_baseline: 0 },
        }
    }

    /// The first link whose area contains `pos`, by its index.
    pub fn link_for_pos(&self, pos: Point) -> (r: Option<usize>)
        ensures
            r matches Some(i) ==> first_containing(self.links_spec(), pos) == Some(i as int),
            r is None ==> first_containing(self.links_spec(), pos) is None,
    {
        match &self.built {
            Some(b) => {
                let mut i: usize = 0;
                while i < b.links.len()
                    invariant
                        self.links_spec() == b.links@,
                        i <= b.links@.len(),
                        forall|j: int| 0 <= j < i ==> !#[trigger] b.links@[j].contains_spec(pos),
                    decreases b.links.len() - i,
                {
                    if b.links[i].contains(pos) {
                        proof {
                            lemma_first_containing(b.links@, pos);
                        }
                        return Some(i);
                    }
                    i += 1;
                }
                proof {
                    lemma_first_containing(b.links@, pos);
                }
                None
            },
            None => None,
        }
    }

    /// Draws the text with its top left corner at `origin`.
    pub fn draw(&self, ctx: &mut PaintCtx, origin: Point)
        ensures
            final(ctx).size == old(ctx).size,
            final(ctx).diagnostics@ == old(ctx).diagnostics@,
            final(ctx).ops@.len() == old(ctx).ops@.len() + 1,
            final(ctx).ops@.take(old(ctx).ops@.len() as int) == old(ctx).ops@,
            draws_text(final(ctx).ops@.last(), self.text@, origin),
    {
        ctx.draw_text(self.text.clone(), origin);
    }
}

} // verus!
