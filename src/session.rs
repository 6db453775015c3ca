use vstd::prelude::*;

use crate::mode::BuildToolMode;
use crate::placer::{classify, lower_of, Placer};

verus! {

/// A placer entity that a click on the palette spawned: the asset it shows and its kind.
#[derive(Clone, Copy, Debug, PartialEq, Eq, Structural)]
pub struct PlacedPart {
    pub asset: u64,
    pub placer: Placer,
}

/// One entry of the palette in one frame: the mesh asset it lists, the asset's path, and
/// what the pointer did to its button.
#[derive(Clone, Debug)]
pub struct PaletteEntry {
    pub asset: u64,
    pub path: String,
    pub clicked: bool,
    pub hovered: bool,
}

/// What the entity store must do to the display models: despawn those of the assets in
/// `despawn`, then spawn one for `spawn`, if any.
#[derive(Clone, Debug)]
pub struct DisplayChange {
    pub despawn: Vec<u64>,
    pub spawn: Option<u64>,
}

/// What one frame of the palette asks of the entity store.
#[derive(Clone, Debug)]
pub struct FrameChanges {
    pub spawned: Vec<PlacedPart>,
    pub display: DisplayChange,
}

/// Marks a part that is being edited.
#[derive(Clone, Copy, Debug, Default, PartialEq, Eq)]
pub struct Edited;

/// Marks a placed model that is not yet part of a structure but could be.
#[derive(Clone, Copy, Debug, Default, PartialEq, Eq)]
pub struct AttachCandidate;

/// Where the panel that lists the placed parts stands in a frame.
#[derive(Clone, Copy, Debug, PartialEq, Eq, Structural)]
pub enum EditorPanel {
    /// Not shown: no placer exists, or the cursor is outside the window.
    Hidden,
    /// Shown beside the cursor, following it.
    AtCursor,
    /// Shown where it stood, as the left control key holds it in place.
    InPlace,
}

/// Where the panel that lists the placed parts stands, given how many placers exist, whether
/// the window has a cursor position, and whether the left control key is held.
pub fn placer_editor_ui(placer_count: usize, cursor_present: bool, ctrl_held: bool) -> (r:
    EditorPanel)
    ensures
        r == (if placer_count == 0 || !cursor_present {
            EditorPanel::Hidden
        } else if ctrl_held {
            EditorPanel::InPlace
        } else {
            EditorPanel::AtCursor
        }),
{
    if placer_count == 0 {
        return EditorPanel::Hidden;
    }
    if !cursor_present {
        return EditorPanel::Hidden;
    }
    if ctrl_held {
        EditorPanel::InPlace
    } else {
        EditorPanel::AtCursor
    }
}

/// The session as a value: the placers spawned so far, in order, the assets of the live
/// display models, and the editing mode.
pub struct SessionView {
    pub placers: Seq<PlacedPart>,
    pub displays: Seq<u64>,
    pub mode: BuildToolMode,
}

/// The bookkeeping of the part palette: which placers were spawned, which display model is
/// live, and the editing mode.
pub struct PlacementSession {
    placers: Vec<PlacedPart>,
    displays: Vec<u64>,
    mode: BuildToolMode,
}

impl View for PlacementSession {
    type V = SessionView;

    closed spec fn view(&self) -> SessionView {
        SessionView { placers: self.placers@, displays: self.displays@, mode: self.mode }
    }
}

/// At most one display model is live.
pub open spec fn session_wf(v: SessionView) -> bool {
    v.displays.len() <= 1
}

/// The placer that a click on the entry of `asset`, at `path`, spawns.
pub open spec fn part_for(asset: u64, path: Seq<char>) -> PlacedPart {
    PlacedPart { asset, placer: classify(lower_of(path)) }
}

/// The session after a click on the entry of `asset`, at `path`.
pub open spec fn click_next(v: SessionView, asset: u64, path: Seq<char>) -> SessionView {
    SessionView {
        placers: v.placers.push(part_for(asset, path)),
        displays: v.displays,
        mode: BuildToolMode::PlacerMode,
    }
}

/// The session after the pointer hovers the entry of `asset`.
pub open spec fn hover_next(v: SessionView, asset: u64) -> SessionView {
    SessionView { placers: v.placers, displays: seq![asset], mode: v.mode }
}

/// The session after a frame in which no entry is hovered.
pub open spec fn end_hover_next(v: SessionView) -> SessionView {
    SessionView { placers: v.placers, displays: Seq::empty(), mode: v.mode }
}

/// The display change that hovering `asset` asks for.
pub open spec fn hover_change(v: SessionView, asset: u64, despawn: Seq<u64>, spawn: Option<u64>) -> bool {
    if v.displays == seq![asset] {
        despawn == Seq::<u64>::empty() && spawn == None::<u64>
    } else {
        despawn == v.displays && spawn == Some(asset)
    }
}

/// The placers that the clicks of a frame spawn, in the order of the entries.
pub open spec fn spawned_by(entries: Seq<PaletteEntry>) -> Seq<PlacedPart>
    decreases entries.len(),
{
    if entries.len() == 0 {
        Seq::empty()
    } else {
        let rest = spawned_by(entries.drop_last());
        let e = entries.last();
        if e.clicked {
            rest.push(part_for(e.asset, e.path@))
        } else {
            rest
        }
    }
}

/// Some entry of the frame was clicked.
pub open spec fn any_clicked(entries: Seq<PaletteEntry>) -> bool {
    exists|i: int| 0 <= i < entries.len() && #[trigger] entries[i].clicked
}

/// `i` is the first hovered entry of the frame.
pub open spec fn first_hovered_at(entries: Seq<PaletteEntry>, i: int) -> bool {
    &&& 0 <= i < entries.len()
    &&& entries[i].hovered
    &&& forall|k: int| 0 <= k < i ==> !(#[trigger] entries[k].hovered)
}

/// The session after the clicks of a frame.
pub open spec fn clicks_of_frame(v: SessionView, entries: Seq<PaletteEntry>) -> SessionView {
    SessionView {
        placers: v.placers + spawned_by(entries),
        displays: v.displays,
        mode: if any_clicked(entries) {
            BuildToolMode::PlacerMode
        } else {
            v.mode
        },
    }
}

/// The session after a whole frame of the palette: its clicks, then the preview of the first
/// hovered entry, or none.
pub open spec fn frame_next(v: SessionView, entries: Seq<PaletteEntry>) -> SessionView {
    let after = clicks_of_frame(v, entries);
    if exists|i: int| first_hovered_at(entries, i) {
        let i = choose|i: int| first_hovered_at(entries, i);
        hover_next(after, entries[i].asset)
    } else {
        end_hover_next(after)
    }
}

proof fn lemma_first_hovered_unique(entries: Seq<PaletteEntry>, i: int, j: int)
    requires
        first_hovered_at(entries, i),
        first_hovered_at(entries, j),
    ensures
        i == j,
{
    if i < j {
        assert(!entries[i].hovered);
    } else if j < i {
        assert(!entries[j].hovered);
    }
}

/// The session after a run of hover events: `Some(asset)` when the pointer hovers the entry
/// of `asset`, `None` when it hovers none.
pub open spec fn after_hovers(v: SessionView, events: Seq<Option<u64>>) -> SessionView
    decreases events.len(),
{
    if events.len() == 0 {
        v
    } else {
        let w = after_hovers(v, events.drop_last());
        match events.last() {
            Some(asset) => hover_next(w, asset),
            None => end_hover_next(w),
        }
    }
}

/// The session after a run of palette frames.
pub open spec fn after_frames(v: SessionView, frames: Seq<Seq<PaletteEntry>>) -> SessionView
    decreases frames.len(),
{
    if frames.len() == 0 {
        v
    } else {
        frame_next(after_frames(v, frames.drop_last()), frames.last())
    }
}

/// Whatever the frames, and whatever their clicks and hovers, at most one display model is
/// live after them.
pub proof fn lemma_frames_keep_one_display(v: SessionView, frames: Seq<Seq<PaletteEntry>>)
    requires
        session_wf(v),
    ensures
        session_wf(after_frames(v, frames)),
    decreases frames.len(),
{
    if frames.len() > 0 {
        lemma_frames_keep_one_display(v, frames.drop_last());
    }
}

/// The session after a run of clicks, each on the entry of an asset at a path.
pub open spec fn after_clicks(v: SessionView, clicks: Seq<(u64, Seq<char>)>) -> SessionView
    decreases clicks.len(),
{
    if clicks.len() == 0 {
        v
    } else {
        click_next(after_clicks(v, clicks.drop_last()), clicks.last().0, clicks.last().1)
    }
}

/// Whatever the hover events, and across any entries, at most one display model is live
/// after them.
pub proof fn lemma_hovers_keep_one_display(v: SessionView, events: Seq<Option<u64>>)
    requires
        session_wf(v),
    ensures
        session_wf(after_hovers(v, events)),
    decreases events.len(),
{
    if events.len() > 0 {
        lemma_hovers_keep_one_display(v, events.drop_last());
    }
}

/// N clicks spawn exactly N placers, in order, each of the kind that its path names; the
/// placers spawned before stay.
pub proof fn lemma_clicks_spawn_one_placer_each(v: SessionView, clicks: Seq<(u64, Seq<char>)>)
    ensures
        after_clicks(v, clicks).placers.len() == v.placers.len() + clicks.len(),
        forall|i: int|
            0 <= i < v.placers.len() ==> after_clicks(v, clicks).placers[i] == v.placers[i],
        forall|i: int|
            0 <= i < clicks.len() ==> after_clicks(v, clicks).placers[v.placers.len() + i]
                == part_for(clicks[i].0, clicks[i].1),
    decreases clicks.len(),
{
    if clicks.len() > 0 {
        let rest = clicks.drop_last();
        lemma_clicks_spawn_one_placer_each(v, rest);
        let n = v.placers.len();
        assert forall|i: int| 0 <= i < clicks.len() implies after_clicks(v, clicks).placers[n + i]
            == part_for(clicks[i].0, clicks[i].1) by {
            if i < rest.len() {
                assert(rest[i] == clicks[i]);
            }
        }
    }
}

impl PlacementSession {
    /// A session with no placer, no display model, and the given mode.
    pub fn new(mode: BuildToolMode) -> (r: PlacementSession)
        ensures
            r@.placers == Seq::<PlacedPart>::empty(),
            r@.displays == Seq::<u64>::empty(),
            r@.mode == mode,
            session_wf(r@),
    {
        PlacementSession { placers: Vec::new(), displays: Vec::new(), mode }
    }

    /// Spawns a placer for the entry of `asset`, at `path`, with the kind its path names,
    /// and switches to placer mode. Each click adds one placer.
    pub fn click(&mut self, asset: u64, path: &str) -> (r: PlacedPart)
        ensures
            r == part_for(asset, path@),
            final(self)@ == click_next(old(self)@, asset, path@),
    {
        let part = PlacedPart { asset, placer: Placer::from_path(path) };
        self.placers.push(part);
        self.mode = BuildToolMode::PlacerMode;
        part
    }

    /// The pointer hovers the entry of `asset`: display models of other assets go, and one
    /// for `asset` is spawned where none is live.
    pub fn hover(&mut self, asset: u64) -> (r: DisplayChange)
        requires
            session_wf(old(self)@),
        ensures
            final(self)@ == hover_next(old(self)@, asset),
            hover_change(old(self)@, asset, r.despawn@, r.spawn),
            session_wf(final(self)@),
    {
        if self.displays.len() == 1 && self.displays[0] == asset {
            assert(self.displays@ =~= seq![asset]);
            DisplayChange { despawn: Vec::new(), spawn: None }
        } else {
            let despawn = self.displays.clone();
            let mut kept: Vec<u64> = Vec::new();
            kept.push(asset);
            self.displays = kept;
            proof {
                if old(self)@.displays == seq![asset] {
                    assert(old(self)@.displays[0] == asset);
                }
            }
            assert(self.displays@ =~= seq![asset]);
            DisplayChange { despawn, spawn: Some(asset) }
        }
    }

    /// No entry is hovered: every display model goes.
    pub fn end_hover(&mut self) -> (r: DisplayChange)
        ensures
            final(self)@ == end_hover_next(old(self)@),
            r.despawn@ == old(self)@.displays,
            r.spawn == None::<u64>,
    {
        let despawn = self.displays.clone();
        self.displays = Vec::new();
        DisplayChange { despawn, spawn: None }
    }

    /// One frame of the palette: each clicked entry spawns a placer, in order; then the first
    /// hovered entry gets the display model, or, where none is hovered, display models go.
    pub fn frame(&mut self, entries: &Vec<PaletteEntry>) -> (r: FrameChanges)
        requires
            session_wf(old(self)@),
        ensures
            final(self)@ == frame_next(old(self)@, entries@),
            r.spawned@ == spawned_by(entries@),
            forall|i: int|
                first_hovered_at(entries@, i) ==> hover_change(
                    old(self)@,
                    entries@[i].asset,
                    r.display.despawn@,
                    r.display.spawn,
                ),
            (forall|i: int| !first_hovered_at(entries@, i)) ==> r.display.despawn@ == old(
                self,
            )@.displays && r.display.spawn == None::<u64>,
            session_wf(final(self)@),
    {
        let ghost v0 = self@;
        let mut spawned: Vec<PlacedPart> = Vec::new();
        let mut i: usize = 0;
        while i < entries.len()
            invariant
                i <= entries@.len(),
                self@ == clicks_of_frame(v0, entries@.subrange(0, i as int)),
                spawned@ == spawned_by(entries@.subrange(0, i as int)),
                session_wf(v0),
            decreases entries.len() - i,
        {
            let ghost before = entries@.subrange(0, i as int);
            let ghost upto = entries@.subrange(0, i + 1);
            assert(upto.drop_last() =~= before);
            assert(upto.last() == entries@[i as int]);
            let e = &entries[i];
            if e.clicked {
                let part = self.click(e.asset, e.path.as_str());
                spawned.push(part);
                assert(upto[i as int].clicked);
            } else {
                assert(any_clicked(upto) == any_clicked(before)) by {
                    if any_clicked(upto) {
                        let k = choose|k: int| 0 <= k < upto.len() && #[trigger] upto[k].clicked;
                        assert(before[k].clicked);
                    }
                    if any_clicked(before) {
                        let k = choose|k: int| 0 <= k < before.len() && #[trigger] before[k].clicked;
                        assert(upto[k].clicked);
                    }
                }
            }
            proof {
                if e.clicked {
                    assert(self@.placers =~= v0.placers + spawned_by(upto));
                }
            }
            i = i + 1;
        }
        assert(entries@.subrange(0, i as int) =~= entries@);
        let ghost after = self@;
        let mut h: usize = 0;
        while h < entries.len() && !entries[h].hovered
            invariant
                h <= entries@.len(),
                forall|k: int| 0 <= k < h ==> !(#[trigger] entries@[k].hovered),
            decreases entries.len() - h,
        {
            h = h + 1;
        }
        let display = if h < entries.len() && entries[h].hovered {
            proof {
                assert(first_hovered_at(entries@, h as int));
                let c = choose|c: int| first_hovered_at(entries@, c);
                lemma_first_hovered_unique(entries@, h as int, c);
            }
            self.hover(entries[h].asset)
        } else {
            assert(h == entries@.len()) by {
                if h < entries@.len() {
                    assert(!entries@[h as int].hovered);
                }
            }
            assert(!exists|c: int| first_hovered_at(entries@, c)) by {
                if exists|c: int| first_hovered_at(entries@, c) {
                    let c = choose|c: int| first_hovered_at(entries@, c);
                    assert(entries@[c].hovered);
                }
            }
            self.end_hover()
        };
        FrameChanges { spawned, display }
    }

    /// The placers spawned so far, in order.
    pub fn placers(&self) -> (r: &Vec<PlacedPart>)
        ensures
            r@ == self@.placers,
    {
        &self.placers
    }

    /// The assets of the live display models.
    pub fn displays(&self) -> (r: &Vec<u64>)
        ensures
            r@ == self@.displays,
    {
        &self.displays
    }

    /// Sets the editing mode, as the mode selector chose it.
    pub fn set_mode(&mut self, mode: BuildToolMode)
        ensures
            final(self)@ == (SessionView { mode, ..old(self)@ }),
    {
        self.mode = mode;
    }

    /// The editing mode.
    pub fn mode(&self) -> (r: BuildToolMode)
        ensures
            r == self@.mode,
    {
        self.mode
    }
}

} // verus!
