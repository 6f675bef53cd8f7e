//! The scene model: a store of tagged entities — one camera and text
//! blocks made of styled segments — together with its well-formedness
//! invariant and the startup pass that builds the initial scene.

use vstd::prelude::*;
use vstd::string::StringExecFns;
use crate::color::Color;
use crate::greeting::{greeting_text, spec_greeting};

verus! {

/// Relies on whoami::realname: the current user's display name, read from
/// the environment, with a fixed fallback when the query fails. Nothing is
/// assumed of the returned string.
#[verifier::external_body]
fn query_realname() -> (r: String) {
    whoami::realname()
}

/// Where a text block anchors inside its layout box.
#[derive(Clone, Copy, PartialEq, Eq, Structural)]
pub enum Align {
    TopLeft,
    BottomLeft,
}

/// Absolute position in logical pixels from the window's top-left origin.
#[derive(Clone, Copy, PartialEq, Eq, Structural)]
pub struct Position {
    pub left_px: u32,
    pub top_px: u32,
}

/// One run of text sharing a single style.
pub struct TextSegment {
    pub value: String,
    pub color: Color,
}

/// The mathematical value of a text segment.
#[verifier::ext_equal]
pub ghost struct SegModel {
    pub value: Seq<char>,
    pub color: Color,
}

impl View for TextSegment {
    type V = SegModel;

    open spec fn view(&self) -> SegModel {
        SegModel { value: self.value@, color: self.color }
    }
}

/// A text block: its segments, font, placement and marker tags.
pub struct TextEntity {
    pub segments: Vec<TextSegment>,
    pub font_path: String,
    pub font_size_pt: u32,
    pub align: Align,
    pub position: Position,
    /// Marker: the color animator repaints segment 0 of this block.
    pub color_animated: bool,
    /// Marker: the frame-rate reporter rewrites segment 1 of this block.
    pub fps: bool,
}

/// The mathematical value of a text block.
#[verifier::ext_equal]
pub ghost struct TextModel {
    pub segments: Seq<SegModel>,
    pub font_path: Seq<char>,
    pub font_size_pt: u32,
    pub align: Align,
    pub position: Position,
    pub color_animated: bool,
    pub fps: bool,
}

impl View for TextEntity {
    type V = TextModel;

    open spec fn view(&self) -> TextModel {
        TextModel {
            segments: self.segments@.map_values(|s: TextSegment| s@),
            font_path: self.font_path@,
            font_size_pt: self.font_size_pt,
            align: self.align,
            position: self.position,
            color_animated: self.color_animated,
            fps: self.fps,
        }
    }
}

/// `t` with segment 0 repainted in `c`.
pub open spec fn with_seg0_color(t: TextModel, c: Color) -> TextModel {
    TextModel { segments: t.segments.update(0, SegModel { value: t.segments[0].value, color: c }), ..t }
}

/// `t` with segment 1's text replaced by `v`.
pub open spec fn with_seg1_value(t: TextModel, v: Seq<char>) -> TextModel {
    TextModel { segments: t.segments.update(1, SegModel { value: v, color: t.segments[1].color }), ..t }
}

impl TextEntity {
    /// Runtime check of the text block's well-formedness.
    pub fn is_well_formed(&self) -> (b: bool)
        ensures
            b == self@.wf(),
    {
        if self.color_animated && self.segments.len() < 1 {
            return false;
        }
        if self.fps && self.segments.len() < 2 {
            return false;
        }
        let n = self.segments.len();
        let mut j: usize = 0;
        while j < n
            invariant
                n == self.segments@.len(),
                j <= n,
                forall|k: int| 0 <= k < j ==> (#[trigger] self@.segments[k]).color.valid(),
            decreases n - j,
        {
            let valid = self.segments[j].color.is_valid();
            proof {
                assert(self@.segments[j as int] == self.segments@[j as int]@);
            }
            if !valid {
                proof {
                    assert(!self@.segments[j as int].color.valid());
                }
                return false;
            }
            j += 1;
        }
        true
    }

    /// Repaints segment 0, leaving everything else in place.
    pub fn set_seg0_color(&mut self, c: Color)
        requires
            old(self).segments@.len() >= 1,
        ensures
            final(self)@ == with_seg0_color(old(self)@, c),
    {
        let mut seg = self.segments.remove(0);
        seg.color = c;
        self.segments.insert(0, seg);
        proof {
            assert(self@.segments =~= with_seg0_color(old(self)@, c).segments);
            assert(self@ =~= with_seg0_color(old(self)@, c));
        }
    }

    /// Rewrites segment 1's text, leaving everything else in place.
    pub fn set_seg1_value(&mut self, v: String)
        requires
            old(self).segments@.len() >= 2,
        ensures
            final(self)@ == with_seg1_value(old(self)@, v@),
    {
        let mut seg = self.segments.remove(1);
        seg.value = v;
        self.segments.insert(1, seg);
        proof {
            assert(self@.segments =~= with_seg1_value(old(self)@, v@).segments);
            assert(self@ =~= with_seg1_value(old(self)@, v@));
        }
    }
}

/// An entity of the scene store.
pub enum Entity {
    Camera,
    Text(TextEntity),
}

/// The mathematical value of an entity.
#[verifier::ext_equal]
pub ghost enum EntityModel {
    Camera,
    Text(TextModel),
}

impl View for Entity {
    type V = EntityModel;

    open spec fn view(&self) -> EntityModel {
        match self {
            Entity::Camera => EntityModel::Camera,
            Entity::Text(t) => EntityModel::Text(t@),
        }
    }
}

impl TextModel {
    /// Every tagged block carries the segments its per-frame task touches,
    /// and every segment's color is a valid color.
    pub open spec fn wf(self) -> bool {
        &&& (self.color_animated ==> self.segments.len() >= 1)
        &&& (self.fps ==> self.segments.len() >= 2)
        &&& (forall|j: int| 0 <= j < self.segments.len() ==> (#[trigger] self.segments[j]).color.valid())
    }
}

impl EntityModel {
    /// Well-formedness of one entity.
    pub open spec fn wf(self) -> bool {
        match self {
            EntityModel::Camera => true,
            EntityModel::Text(t) => t.wf(),
        }
    }

    /// Whether the color animator selects this entity.
    pub open spec fn is_color_animated(self) -> bool {
        match self {
            EntityModel::Camera => false,
            EntityModel::Text(t) => t.color_animated,
        }
    }

    /// The color of a text entity's first segment.
    pub open spec fn seg0_color(self) -> Option<Color> {
        match self {
            EntityModel::Camera => None,
            EntityModel::Text(t) => Some(t.segments[0].color),
        }
    }

    /// Whether the frame-rate reporter selects this entity.
    pub open spec fn is_fps(self) -> bool {
        match self {
            EntityModel::Camera => false,
            EntityModel::Text(t) => t.fps,
        }
    }
}

/// The entity store: every scene object, in creation order.
pub struct Store {
    pub entities: Vec<Entity>,
}

impl View for Store {
    type V = Seq<EntityModel>;

    open spec fn view(&self) -> Seq<EntityModel> {
        self.entities@.map_values(|e: Entity| e@)
    }
}

impl Store {
    /// Every entity of the store is well formed.
    pub open spec fn wf(self) -> bool {
        forall|i: int| 0 <= i < self@.len() ==> (#[trigger] self@[i]).wf()
    }

    /// Runtime check of `wf`.
    pub fn is_well_formed(&self) -> (b: bool)
        ensures
            b == self.wf(),
    {
        let n = self.entities.len();
        let mut i: usize = 0;
        while i < n
            invariant
                n == self.entities@.len(),
                i <= n,
                forall|j: int| 0 <= j < i ==> (#[trigger] self@[j]).wf(),
            decreases n - i,
        {
            let ok = match &self.entities[i] {
                Entity::Camera => true,
                Entity::Text(t) => t.is_well_formed(),
            };
            proof {
                assert(self@[i as int] == self.entities@[i as int]@);
            }
            if !ok {
                proof {
                    assert(!self@[i as int].wf());
                }
                return false;
            }
            i += 1;
        }
        true
    }
}

/// The attribution line's text.
pub open spec fn spec_attribution_text() -> Seq<char> {
    "developed using Rust"@
}

/// The greeting entity as startup leaves it: the three-line greeting in a
/// single white segment, bold font at 60 points, anchored top-left at
/// (100, 100), tagged for color animation.
pub open spec fn greeting_model() -> EntityModel {
    EntityModel::Text(
        TextModel {
            segments: seq![SegModel { value: spec_greeting(), color: Color::white() }],
            font_path: "fonts/DejaVuSansMono-Bold.ttf"@,
            font_size_pt: 60,
            align: Align::TopLeft,
            position: Position { left_px: 100, top_px: 100 },
            color_animated: true,
            fps: false,
        },
    )
}

/// The attribution entity as startup leaves it: one white segment at 30
/// points, anchored bottom-left at (100, 500), tagged for color animation.
pub open spec fn attribution_model() -> EntityModel {
    EntityModel::Text(
        TextModel {
            segments: seq![SegModel { value: spec_attribution_text(), color: Color::white() }],
            font_path: "fonts/DejaVuSansMono.ttf"@,
            font_size_pt: 30,
            align: Align::BottomLeft,
            position: Position { left_px: 100, top_px: 500 },
            color_animated: true,
            fps: false,
        },
    )
}

/// Builds the initial scene: exactly one camera, the greeting entity and
/// the attribution entity, in that order, and nothing else. No entity
/// carries the frame-rate tag, so the frame-rate reporter has nothing to
/// select in the built scene.
pub fn build_scene() -> (store: Store)
    ensures
        store@.len() == 3,
        store@[0] == EntityModel::Camera,
        store@[1] == greeting_model(),
        store@[2] == attribution_model(),
        store.wf(),
{
    // The user's display name is read at startup; the greeting's text
    // stays the fixed three lines regardless of what comes back.
    let _user = query_realname();
    let mut entities: Vec<Entity> = Vec::new();
    entities.push(Entity::Camera);
    let mut greeting_segs: Vec<TextSegment> = Vec::new();
    greeting_segs.push(TextSegment { value: greeting_text(), color: Color::make_white() });
    entities.push(
        Entity::Text(
            TextEntity {
                segments: greeting_segs,
                font_path: String::from_str("fonts/DejaVuSansMono-Bold.ttf"),
                font_size_pt: 60,
                align: Align::TopLeft,
                position: Position { left_px: 100, top_px: 100 },
                color_animated: true,
                fps: false,
            },
        ),
    );
    let mut attribution_segs: Vec<TextSegment> = Vec::new();
    attribution_segs.push(
        TextSegment { value: String::from_str("developed using Rust"), color: Color::make_white() },
    );
    entities.push(
        Entity::Text(
            TextEntity {
                segments: attribution_segs,
                font_path: String::from_str("fonts/DejaVuSansMono.ttf"),
                font_size_pt: 30,
                align: Align::BottomLeft,
                position: Position { left_px: 100, top_px: 500 },
                color_animated: true,
                fps: false,
            },
        ),
    );
    let store = Store { entities };
    proof {
        assert(store@[1] =~~= greeting_model());
        assert(store@[2] =~~= attribution_model());
        assert forall|i: int| 0 <= i < store@.len() implies (#[trigger] store@[i]).wf() by {
            if i == 0 {
            } else if i == 1 {
                assert(store@[1] == greeting_model());
            } else {
                assert(store@[2] == attribution_model());
            }
        }
    }
    store
}

/// The host window's fixed configuration: the title and the logical size.
pub struct WindowConfig {
    pub title: String,
    pub width_px: u32,
    pub height_px: u32,
}

/// The window the application asks the host for: "Happy New Year" at
/// 1280 by 800 logical pixels.
pub fn window_config() -> (w: WindowConfig)
    ensures
        w.title@ == "Happy New Year"@,
        w.width_px == 1280,
        w.height_px == 800,
{
    WindowConfig {
        title: String::from_str("Happy New Year"),
        width_px: 1280,
        height_px: 800,
    }
}

} // verus!
