use vstd::prelude::*;

use crate::ansi::{escape, Ansi};
use crate::utils;

verus! {

/// One unit of a builder's content: literal text, or a display attribute.
#[derive(Debug, Clone, PartialEq)]
pub enum Entity {
    Text(String),
    Ansi(Ansi),
}

/// The mathematical value of an [`Entity`].
pub enum EntityView {
    Text(Seq<char>),
    Ansi(Ansi),
}

impl View for Entity {
    type V = EntityView;

    open spec fn view(&self) -> EntityView {
        match self {
            Entity::Text(s) => EntityView::Text(s@),
            Entity::Ansi(a) => EntityView::Ansi(*a),
        }
    }
}

/// A builder for styled text: an ordered sequence of entities, and the two
/// flags that decide whether rendering emits escape sequences.
#[derive(Debug, Clone)]
pub struct Builder {
    content: Vec<Entity>,
    no_color: bool,
    force_color: bool,
}

/// The state of a [`Builder`]: its entities in the order they were appended,
/// whether the environment asked for plain output, and whether color is forced.
pub struct BuilderView {
    pub entities: Seq<EntityView>,
    pub no_color: bool,
    pub force_color: bool,
}

impl BuilderView {
    /// The same state with `e` appended.
    pub open spec fn appended(self, e: EntityView) -> BuilderView {
        BuilderView { entities: self.entities.push(e), ..self }
    }

    /// Whether rendering emits escape sequences.
    pub open spec fn color_enabled(self) -> bool {
        self.force_color || !self.no_color
    }
}

impl View for Builder {
    type V = BuilderView;

    closed spec fn view(&self) -> BuilderView {
        BuilderView {
            entities: self.content@.map_values(|e: Entity| e@),
            no_color: self.no_color,
            force_color: self.force_color,
        }
    }
}

/// The literal text of `es`, in order, with every attribute left out.
pub open spec fn plain_text(es: Seq<EntityView>) -> Seq<char>
    decreases es.len(),
{
    if es.len() == 0 {
        Seq::empty()
    } else {
        plain_text(es.drop_last()) + match es.last() {
            EntityView::Text(s) => s,
            EntityView::Ansi(_) => Seq::empty(),
        }
    }
}

/// The text of `es`, in order, with every attribute as its escape sequence.
pub open spec fn styled_text(es: Seq<EntityView>) -> Seq<char>
    decreases es.len(),
{
    if es.len() == 0 {
        Seq::empty()
    } else {
        styled_text(es.drop_last()) + match es.last() {
            EntityView::Text(s) => s,
            EntityView::Ansi(a) => a.spec_escape(),
        }
    }
}

/// Whether a color-enabled render starts with a reset: the sequence is
/// non-empty and its last entity is not `Reset`.
pub open spec fn needs_leading_reset(es: Seq<EntityView>) -> bool {
    es.len() > 0 && es.last() != EntityView::Ansi(Ansi::Reset)
}

/// What a builder in state `b` renders to.
pub open spec fn rendered(b: BuilderView) -> Seq<char> {
    if !b.color_enabled() {
        plain_text(b.entities)
    } else if needs_leading_reset(b.entities) {
        Ansi::Reset.spec_escape() + styled_text(b.entities)
    } else {
        styled_text(b.entities)
    }
}

impl Builder {
    /// An empty builder whose color decision is `no_color`, with color not forced.
    pub fn with_no_color(no_color: bool) -> (r: Builder)
        ensures
            r@.entities == Seq::<EntityView>::empty(),
            r@.no_color == no_color,
            !r@.force_color,
    {
        let r = Builder { content: Vec::new(), no_color, force_color: false };
        assert(r@.entities =~= Seq::<EntityView>::empty());
        r
    }

    /// An empty builder that renders plain text when standard output is not a
    /// terminal. The environment's opt-out variable is not read here: a caller
    /// that reads it passes the whole decision, `color_disabled(..)`, to
    /// `with_no_color`.
    pub fn new() -> (r: Builder)
        ensures
            r@.entities == Seq::<EntityView>::empty(),
            !r@.force_color,
    {
        Builder::with_no_color(!utils::stdout_is_terminal())
    }

    /// Appends literal text, unchanged.
    pub fn text(&mut self, text: &str) -> (r: &mut Builder)
        ensures
            r@ == old(self)@.appended(EntityView::Text(text@)),
            *final(self) == *final(r),
    {
        self.content.push(Entity::Text(text.to_owned()));
        assert(self@.entities =~= old(self)@.entities.push(EntityView::Text(text@)));
        self
    }

    /// Appends a display attribute.
    pub fn ansi(&mut self, ansi: Ansi) -> (r: &mut Builder)
        ensures
            r@ == old(self)@.appended(EntityView::Ansi(ansi)),
            *final(self) == *final(r),
    {
        self.content.push(Entity::Ansi(ansi));
        assert(self@.entities =~= old(self)@.entities.push(EntityView::Ansi(ansi)));
        self
    }

    /// Appends a reset, which clears every attribute.
    pub fn reset(&mut self) -> (r: &mut Builder)
        ensures
            r@ == old(self)@.appended(EntityView::Ansi(Ansi::Reset)),
            *final(self) == *final(r),
    {
        self.ansi(Ansi::Reset)
    }

    /// Appends the attribute bold.
    pub fn bold(&mut self) -> (r: &mut Builder)
        ensures
            r@ == old(self)@.appended(EntityView::Ansi(Ansi::Bold)),
            *final(self) == *final(r),
    {
        self.ansi(Ansi::Bold)
    }

    /// Appends the attribute faint.
    pub fn faint(&mut self) -> (r: &mut Builder)
        ensures
            r@ == old(self)@.appended(EntityView::Ansi(Ansi::Faint)),
            *final(self) == *final(r),
    {
        self.ansi(Ansi::Faint)
    }

    /// Appends the attribute italic.
    pub fn italic(&mut self) -> (r: &mut Builder)
        ensures
            r@ == old(self)@.appended(EntityView::Ansi(Ansi::Italic)),
            *final(self) == *final(r),
    {
        self.ansi(Ansi::Italic)
    }

    /// Appends the attribute underline.
    pub fn underline(&mut self) -> (r: &mut Builder)
        ensures
            r@ == old(self)@.appended(EntityView::Ansi(Ansi::Underline)),
            *final(self) == *final(r),
    {
        self.ansi(Ansi::Underline)
    }

    /// Appends the attribute slow blink.
    pub fn blink_slow(&mut self) -> (r: &mut Builder)
        ensures
            r@ == old(self)@.appended(EntityView::Ansi(Ansi::BlinkSlow)),
            *final(self) == *final(r),
    {
        self.ansi(Ansi::BlinkSlow)
    }

    /// Appends the attribute rapid blink.
    pub fn blink_rapid(&mut self) -> (r: &mut Builder)
        ensures
            r@ == old(self)@.appended(EntityView::Ansi(Ansi::BlinkRapid)),
            *final(self) == *final(r),
    {
        self.ansi(Ansi::BlinkRapid)
    }

    /// Appends the attribute reverse video.
    pub fn reverse_video(&mut self) -> (r: &mut Builder)
        ensures
            r@ == old(self)@.appended(EntityView::Ansi(Ansi::ReverseVideo)),
            *final(self) == *final(r),
    {
        self.ansi(Ansi::ReverseVideo)
    }

    /// Appends the attribute concealed.
    pub fn concealed(&mut self) -> (r: &mut Builder)
        ensures
            r@ == old(self)@.appended(EntityView::Ansi(Ansi::Concealed)),
            *final(self) == *final(r),
    {
        self.ansi(Ansi::Concealed)
    }

    /// Appends the attribute crossed-out.
    pub fn crossed_out(&mut self) -> (r: &mut Builder)
        ensures
            r@ == old(self)@.appended(EntityView::Ansi(Ansi::CrossedOut)),
            *final(self) == *final(r),
    {
        self.ansi(Ansi::CrossedOut)
    }

    /// Appends the attribute foreground black.
    pub fn fg_black(&mut self) -> (r: &mut Builder)
        ensures
            r@ == old(self)@.appended(EntityView::Ansi(Ansi::FgBlack)),
            *final(self) == *final(r),
    {
        self.ansi(Ansi::FgBlack)
    }

    /// Appends the attribute foreground red.
    pub fn fg_red(&mut self) -> (r: &mut Builder)
        ensures
            r@ == old(self)@.appended(EntityView::Ansi(Ansi::FgRed)),
            *final(self) == *final(r),
    {
        self.ansi(Ansi::FgRed)
    }

    /// Appends the attribute foreground green.
    pub fn fg_green(&mut self) -> (r: &mut Builder)
        ensures
            r@ == old(self)@.appended(EntityView::Ansi(Ansi::FgGreen)),
            *final(self) == *final(r),
    {
        self.ansi(Ansi::FgGreen)
    }

    /// Appends the attribute foreground yellow.
    pub fn fg_yellow(&mut self) -> (r: &mut Builder)
        ensures
            r@ == old(self)@.appended(EntityView::Ansi(Ansi::FgYellow)),
            *final(self) == *final(r),
    {
        self.ansi(Ansi::FgYellow)
    }

    /// Appends the attribute foreground blue.
    pub fn fg_blue(&mut self) -> (r: &mut Builder)
        ensures
            r@ == old(self)@.appended(EntityView::Ansi(Ansi::FgBlue)),
            *final(self) == *final(r),
    {
        self.ansi(Ansi::FgBlue)
    }

    /// Appends the attribute foreground magenta.
    pub fn fg_magenta(&mut self) -> (r: &mut Builder)
        ensures
            r@ == old(self)@.appended(EntityView::Ansi(Ansi::FgMagenta)),
            *final(self) == *final(r),
    {
        self.ansi(Ansi::FgMagenta)
    }

    /// Appends the attribute foreground cyan.
    pub fn fg_cyan(&mut self) -> (r: &mut Builder)
        ensures
            r@ == old(self)@.appended(EntityView::Ansi(Ansi::FgCyan)),
            *final(self) == *final(r),
    {
        self.ansi(Ansi::FgCyan)
    }

    /// Appends the attribute foreground white.
    pub fn fg_white(&mut self) -> (r: &mut Builder)
        ensures
            r@ == old(self)@.appended(EntityView::Ansi(Ansi::FgWhite)),
            *final(self) == *final(r),
    {
        self.ansi(Ansi::FgWhite)
    }

    /// Appends the attribute high-intensity foreground black.
    pub fn fg_hi_black(&mut self) -> (r: &mut Builder)
        ensures
            r@ == old(self)@.appended(EntityView::Ansi(Ansi::FgHiBlack)),
            *final(self) == *final(r),
    {
        self.ansi(Ansi::FgHiBlack)
    }

    /// Appends the attribute high-intensity foreground red.
    pub fn fg_hi_red(&mut self) -> (r: &mut Builder)
        ensures
            r@ == old(self)@.appended(EntityView::Ansi(Ansi::FgHiRed)),
            *final(self) == *final(r),
    {
        self.ansi(Ansi::FgHiRed)
    }

    /// Appends the attribute high-intensity foreground green.
    pub fn fg_hi_green(&mut self) -> (r: &mut Builder)
        ensures
            r@ == old(self)@.appended(EntityView::Ansi(Ansi::FgHiGreen)),
            *final(self) == *final(r),
    {
        self.ansi(Ansi::FgHiGreen)
    }

    /// Appends the attribute high-intensity foreground yellow.
    pub fn fg_hi_yellow(&mut self) -> (r: &mut Builder)
        ensures
            r@ == old(self)@.appended(EntityView::Ansi(Ansi::FgHiYellow)),
            *final(self) == *final(r),
    {
        self.ansi(Ansi::FgHiYellow)
    }

    /// Appends the attribute high-intensity foreground blue.
    pub fn fg_hi_blue(&mut self) -> (r: &mut Builder)
        ensures
            r@ == old(self)@.appended(EntityView::Ansi(Ansi::FgHiBlue)),
            *final(self) == *final(r),
    {
        self.ansi(Ansi::FgHiBlue)
    }

    /// Appends the attribute high-intensity foreground magenta.
    pub fn fg_hi_magenta(&mut self) -> (r: &mut Builder)
        ensures
            r@ == old(self)@.appended(EntityView::Ansi(Ansi::FgHiMagenta)),
            *final(self) == *final(r),
    {
        self.ansi(Ansi::FgHiMagenta)
    }

    /// Appends the attribute high-intensity foreground cyan.
    pub fn fg_hi_cyan(&mut self) -> (r: &mut Builder)
        ensures
            r@ == old(self)@.appended(EntityView::Ansi(Ansi::FgHiCyan)),
            *final(self) == *final(r),
    {
        self.ansi(Ansi::FgHiCyan)
    }

    /// Appends the attribute high-intensity foreground white.
    pub fn fg_hi_white(&mut self) -> (r: &mut Builder)
        ensures
            r@ == old(self)@.appended(EntityView::Ansi(Ansi::FgHiWhite)),
            *final(self) == *final(r),
    {
        self.ansi(Ansi::FgHiWhite)
    }

    /// Appends the attribute background black.
    pub fn bg_black(&mut self) -> (r: &mut Builder)
        ensures
            r@ == old(self)@.appended(EntityView::Ansi(Ansi::BgBlack)),
            *final(self) == *final(r),
    {
        self.ansi(Ansi::BgBlack)
    }

    /// Appends the attribute background red.
    pub fn bg_red(&mut self) -> (r: &mut Builder)
        ensures
            r@ == old(self)@.appended(EntityView::Ansi(Ansi::BgRed)),
            *final(self) == *final(r),
    {
        self.ansi(Ansi::BgRed)
    }

    /// Appends the attribute background green.
    pub fn bg_green(&mut self) -> (r: &mut Builder)
        ensures
            r@ == old(self)@.appended(EntityView::Ansi(Ansi::BgGreen)),
            *final(self) == *final(r),
    {
        self.ansi(Ansi::BgGreen)
    }

    /// Appends the attribute background yellow.
    pub fn bg_yellow(&mut self) -> (r: &mut Builder)
        ensures
            r@ == old(self)@.appended(EntityView::Ansi(Ansi::BgYellow)),
            *final(self) == *final(r),
    {
        self.ansi(Ansi::BgYellow)
    }

    /// Appends the attribute background blue.
    pub fn bg_blue(&mut self) -> (r: &mut Builder)
        ensures
            r@ == old(self)@.appended(EntityView::Ansi(Ansi::BgBlue)),
            *final(self) == *final(r),
    {
        self.ansi(Ansi::BgBlue)
    }

    /// Appends the attribute background magenta.
    pub fn bg_magenta(&mut self) -> (r: &mut Builder)
        ensures
            r@ == old(self)@.appended(EntityView::Ansi(Ansi::BgMagenta)),
            *final(self) == *final(r),
    {
        self.ansi(Ansi::BgMagenta)
    }

    /// Appends the attribute background cyan.
    pub fn bg_cyan(&mut self) -> (r: &mut Builder)
        ensures
            r@ == old(self)@.appended(EntityView::Ansi(Ansi::BgCyan)),
            *final(self) == *final(r),
    {
        self.ansi(Ansi::BgCyan)
    }

    /// Appends the attribute background white.
    pub fn bg_white(&mut self) -> (r: &mut Builder)
        ensures
            r@ == old(self)@.appended(EntityView::Ansi(Ansi::BgWhite)),
            *final(self) == *final(r),
    {
        self.ansi(Ansi::BgWhite)
    }

    /// Appends the attribute high-intensity background black.
    pub fn bg_hi_black(&mut self) -> (r: &mut Builder)
        ensures
            r@ == old(self)@.appended(EntityView::Ansi(Ansi::BgHiBlack)),
            *final(self) == *final(r),
    {
        self.ansi(Ansi::BgHiBlack)
    }

    /// Appends the attribute high-intensity background red.
    pub fn bg_hi_red(&mut self) -> (r: &mut Builder)
        ensures
            r@ == old(self)@.appended(EntityView::Ansi(Ansi::BgHiRed)),
            *final(self) == *final(r),
    {
        self.ansi(Ansi::BgHiRed)
    }

    /// Appends the attribute high-intensity background green.
    pub fn bg_hi_green(&mut self) -> (r: &mut Builder)
        ensures
            r@ == old(self)@.appended(EntityView::Ansi(Ansi::BgHiGreen)),
            *final(self) == *final(r),
    {
        self.ansi(Ansi::BgHiGreen)
    }

    /// Appends the attribute high-intensity background yellow.
    pub fn bg_hi_yellow(&mut self) -> (r: &mut Builder)
        ensures
            r@ == old(self)@.appended(EntityView::Ansi(Ansi::BgHiYellow)),
            *final(self) == *final(r),
    {
        self.ansi(Ansi::BgHiYellow)
    }

    /// Appends the attribute high-intensity background blue.
    pub fn bg_hi_blue(&mut self) -> (r: &mut Builder)
        ensures
            r@ == old(self)@.appended(EntityView::Ansi(Ansi::BgHiBlue)),
            *final(self) == *final(r),
    {
        self.ansi(Ansi::BgHiBlue)
    }

    /// Appends the attribute high-intensity background magenta.
    pub fn bg_hi_magenta(&mut self) -> (r: &mut Builder)
        ensures
            r@ == old(self)@.appended(EntityView::Ansi(Ansi::BgHiMagenta)),
            *final(self) == *final(r),
    {
        self.ansi(Ansi::BgHiMagenta)
    }

    /// Appends the attribute high-intensity background cyan.
    pub fn bg_hi_cyan(&mut self) -> (r: &mut Builder)
        ensures
            r@ == old(self)@.appended(EntityView::Ansi(Ansi::BgHiCyan)),
            *final(self) == *final(r),
    {
        self.ansi(Ansi::BgHiCyan)
    }

    /// Appends the attribute high-intensity background white.
    pub fn bg_hi_white(&mut self) -> (r: &mut Builder)
        ensures
            r@ == old(self)@.appended(EntityView::Ansi(Ansi::BgHiWhite)),
            *final(self) == *final(r),
    {
        self.ansi(Ansi::BgHiWhite)
    }

    /// Forces color output, whatever the environment said.
    pub fn force_color(&mut self) -> (r: &mut Builder)
        ensures
            r@ == (BuilderView { force_color: true, ..old(self)@ }),
            *final(self) == *final(r),
    {
        self.force_color = true;
        self
    }
    /// Whether rendering emits escape sequences: color is forced, or the
    /// environment did not disable it.
    pub fn color_enabled(&self) -> (r: bool)
        ensures
            r == self@.color_enabled(),
    {
        self.force_color || !self.no_color
    }

    /// Renders the content: plain text when color is disabled and not forced;
    /// otherwise every attribute as its escape sequence, after a leading reset
    /// unless the sequence is empty or its last entity is `Reset`.
    pub fn to_string(&self) -> (r: String)
        ensures
            r@ == rendered(self@),
    {
        let mut out = String::new();
        let n = self.content.len();
        if !self.color_enabled() {
            let mut i: usize = 0;
            while i < n
                invariant
                    n == self.content@.len(),
                    i <= n,
                    out@ == plain_text(self@.entities.take(i as int)),
                decreases n - i,
            {
                match &self.content[i] {
                    Entity::Text(t) => out.append(t.as_str()),
                    Entity::Ansi(_) => {},
                }
                assert(self@.entities.take(i + 1).drop_last() =~= self@.entities.take(i as int));
                i = i + 1;
            }
            assert(self@.entities.take(n as int) =~= self@.entities);
            return out;
        }
        if n > 0 {
            let last_is_reset = match &self.content[n - 1] {
                Entity::Ansi(Ansi::Reset) => true,
                _ => false,
            };
            if !last_is_reset {
                let reset = Ansi::Reset.to_string();
                out.append(reset.as_str());
            }
        }
        let ghost start = out@;
        let mut i: usize = 0;
        while i < n
            invariant
                n == self.content@.len(),
                i <= n,
                out@ == start + styled_text(self@.entities.take(i as int)),
            decreases n - i,
        {
            match &self.content[i] {
                Entity::Text(t) => out.append(t.as_str()),
                Entity::Ansi(a) => {
                    let code = a.to_string();
                    out.append(code.as_str());
                },
            }
            assert(self@.entities.take(i + 1).drop_last() =~= self@.entities.take(i as int));
            i = i + 1;
        }
        assert(self@.entities.take(n as int) =~= self@.entities);
        assert(out@ =~= start + styled_text(self@.entities));
        out
    }

    /// A copy of the content, in order; changing it leaves the builder as it is.
    pub fn content_raw(&self) -> (r: Vec<Entity>)
        ensures
            r@.map_values(|e: Entity| e@) == self@.entities,
    {
        let mut r: Vec<Entity> = Vec::new();
        let n = self.content.len();
        let mut i: usize = 0;
        while i < n
            invariant
                n == self.content@.len(),
                i <= n,
                r@.len() == i,
                forall|j: int| 0 <= j < i ==> #[trigger] r@[j]@ == self@.entities[j],
            decreases n - i,
        {
            let e = match &self.content[i] {
                Entity::Text(t) => Entity::Text(t.clone()),
                Entity::Ansi(a) => Entity::Ansi(*a),
            };
            assert(e@ == self@.entities[i as int]);
            r.push(e);
            i = i + 1;
        }
        assert(r@.map_values(|e: Entity| e@) =~= self@.entities);
        r
    }
}

/// `text` wrapped in `color` and a closing reset:
/// `ESC [ <code> m`, the text, then `ESC [ 0 m`.
pub fn color_sprint(color: Ansi, text: &str) -> (r: String)
    ensures
        r@ == color.spec_escape() + text@ + Ansi::Reset.spec_escape(),
{
    let mut out = color.to_string();
    out.append(text);
    let reset = Ansi::Reset.to_string();
    out.append(reset.as_str());
    out
}

/// With color disabled and not forced, rendering keeps only the literal text,
/// in order, and leaves every attribute out.
pub proof fn lemma_disabled_renders_plain_text(b: BuilderView)
    requires
        b.no_color,
        !b.force_color,
    ensures
        rendered(b) == plain_text(b.entities),
{
}

/// With color enabled, a sequence whose last entity is not `Reset` renders a
/// reset before anything of its own; one whose last entity is `Reset` renders
/// no reset before its own content.
pub proof fn lemma_leading_reset(b: BuilderView)
    requires
        b.color_enabled(),
        b.entities.len() > 0,
    ensures
        b.entities.last() != EntityView::Ansi(Ansi::Reset) ==> rendered(b)
            == Ansi::Reset.spec_escape() + styled_text(b.entities),
        b.entities.last() == EntityView::Ansi(Ansi::Reset) ==> rendered(b) == styled_text(
            b.entities,
        ),
{
}

/// A builder with no entities renders to the empty string, with color or
/// without.
pub proof fn lemma_empty_renders_empty(b: BuilderView)
    requires
        b.entities.len() == 0,
    ensures
        rendered(b) == Seq::<char>::empty(),
{
}

/// `color_sprint(color, text)` gives what a builder with color forced renders
/// after `ansi(color)`, `text(text)` and `reset()`.
pub proof fn lemma_color_sprint_matches_builder(color: Ansi, text: Seq<char>, no_color: bool)
    ensures
        rendered(
            BuilderView {
                entities: seq![EntityView::Ansi(color), EntityView::Text(text), EntityView::Ansi(Ansi::Reset)],
                no_color,
                force_color: true,
            },
        ) == color.spec_escape() + text + Ansi::Reset.spec_escape(),
{
    let es = seq![EntityView::Ansi(color), EntityView::Text(text), EntityView::Ansi(Ansi::Reset)];
    let e2 = es.drop_last();
    let e1 = e2.drop_last();
    assert(e1.drop_last() =~= Seq::<EntityView>::empty());
    assert(e1.last() == EntityView::Ansi(color));
    assert(styled_text(e1.drop_last()) == Seq::<char>::empty());
    assert(styled_text(e1) =~= color.spec_escape());
    assert(e2.last() == EntityView::Text(text));
    assert(styled_text(e2) =~= color.spec_escape() + text);
    assert(styled_text(es) =~= color.spec_escape() + text + Ansi::Reset.spec_escape());
}

} // verus!
