use vstd::prelude::*;

verus! {

/// The active editing mode of the editor.
#[derive(Clone, Copy, Debug, PartialEq, Eq, Structural)]
pub enum BuildToolMode {
    GizmoMode,
    PlacerMode,
    EditerMode,
}

/// The modes in the order in which the mode selector lists them.
pub open spec fn mode_list() -> Seq<BuildToolMode> {
    seq![BuildToolMode::GizmoMode, BuildToolMode::PlacerMode, BuildToolMode::EditerMode]
}

/// The mode after a frame of the mode selector: the last mode whose button was clicked,
/// or `current` where none was.
pub open spec fn chosen_mode(current: BuildToolMode, clicked: Seq<bool>) -> BuildToolMode
    decreases clicked.len(),
{
    if clicked.len() == 0 {
        current
    } else if clicked.last() {
        mode_list()[clicked.len() - 1]
    } else {
        chosen_mode(current, clicked.drop_last())
    }
}

impl BuildToolMode {
    /// Every mode, in the order of `mode_list`.
    pub fn all() -> (r: Vec<BuildToolMode>)
        ensures
            r@ == mode_list(),
    {
        let r: Vec<BuildToolMode> = vec![
            BuildToolMode::GizmoMode,
            BuildToolMode::PlacerMode,
            BuildToolMode::EditerMode,
        ];
        assert(r@ =~= mode_list());
        r
    }

    /// The name of the mode, as its button shows it.
    pub fn label(&self) -> (r: &'static str)
        ensures
            r@ == (match self {
                BuildToolMode::GizmoMode => "GizmoMode"@,
                BuildToolMode::PlacerMode => "PlacerMode"@,
                BuildToolMode::EditerMode => "EditerMode"@,
            }),
    {
        proof {
            reveal_strlit("GizmoMode");
            reveal_strlit("PlacerMode");
            reveal_strlit("EditerMode");
        }
        match self {
            BuildToolMode::GizmoMode => "GizmoMode",
            BuildToolMode::PlacerMode => "PlacerMode",
            BuildToolMode::EditerMode => "EditerMode",
        }
    }
}

impl Default for BuildToolMode {
    fn default() -> (r: BuildToolMode)
        ensures
            r == BuildToolMode::GizmoMode,
    {
        BuildToolMode::GizmoMode
    }
}

/// The mode after one frame of the mode selector, given for each button of `all` whether it
/// was clicked.
pub fn select_build_tool(current: BuildToolMode, clicked: &Vec<bool>) -> (r: BuildToolMode)
    requires
        clicked@.len() == mode_list().len(),
    ensures
        r == chosen_mode(current, clicked@),
{
    let modes = BuildToolMode::all();
    let mut mode = current;
    let mut i: usize = 0;
    while i < clicked.len()
        invariant
            i <= clicked@.len(),
            clicked@.len() == mode_list().len(),
            modes@ == mode_list(),
            mode == chosen_mode(current, clicked@.subrange(0, i as int)),
        decreases clicked.len() - i,
    {
        let ghost prefix = clicked@.subrange(0, i + 1);
        assert(prefix.drop_last() =~= clicked@.subrange(0, i as int));
        if clicked[i] {
            mode = modes[i];
        }
        i = i + 1;
    }
    assert(clicked@.subrange(0, i as int) =~= clicked@);
    mode
}

/// Whether the pointer is over a UI panel, given for each window whether the pointer is over
/// one of its areas: true where it is over any of them, false where there is none.
pub fn check_if_mouse_over_ui(pointer_over: &Vec<bool>) -> (r: bool)
    ensures
        r == exists|i: int| 0 <= i < pointer_over@.len() && pointer_over@[i],
{
    let mut i: usize = 0;
    while i < pointer_over.len()
        invariant
            i <= pointer_over@.len(),
            forall|k: int| 0 <= k < i ==> !pointer_over@[k],
        decreases pointer_over.len() - i,
    {
        if pointer_over[i] {
            return true;
        }
        i = i + 1;
    }
    false
}

} // verus!
