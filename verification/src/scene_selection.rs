use vstd::prelude::*;

verus! {

/// The glTF scenes the test bench can show.
#[derive(Clone, Copy, Debug, PartialEq, Eq, Structural, PartialOrd, Ord, Hash)]
pub enum CollisionSceneSelection {
    Scene0,
    Scene0b,
    Scene1,
    Scene2,
    Scene3,
    Scene4,
    Scene5,
    Scene6,
    Scene7,
}

/// The scenes cycled through by `next` and `prev`, in order.
pub open spec fn playlist() -> Seq<CollisionSceneSelection> {
    seq![
        CollisionSceneSelection::Scene0,
        CollisionSceneSelection::Scene0b,
        CollisionSceneSelection::Scene1,
        CollisionSceneSelection::Scene2,
        CollisionSceneSelection::Scene3,
        CollisionSceneSelection::Scene4,
        CollisionSceneSelection::Scene6,
    ]
}

impl CollisionSceneSelection {
    /// Number of scenes in the playlist.
    pub const LEN: usize = 7;

    /// The scene is part of the playlist (`Scene5` and `Scene7` are not).
    pub open spec fn in_playlist(self) -> bool {
        !(self is Scene5) && !(self is Scene7)
    }

    /// Index of the scene within the playlist.
    pub open spec fn spec_position(self) -> int {
        match self {
            CollisionSceneSelection::Scene0 => 0,
            CollisionSceneSelection::Scene0b => 1,
            CollisionSceneSelection::Scene1 => 2,
            CollisionSceneSelection::Scene2 => 3,
            CollisionSceneSelection::Scene3 => 4,
            CollisionSceneSelection::Scene4 => 5,
            CollisionSceneSelection::Scene6 => 6,
            _ => 0,
        }
    }

    /// The scene after this one, wrapping from the last to the first.
    pub open spec fn spec_next(self) -> CollisionSceneSelection {
        playlist()[(self.spec_position() + 1) % (Self::LEN as int)]
    }

    /// The scene before this one, wrapping from the first to the last.
    pub open spec fn spec_prev(self) -> CollisionSceneSelection {
        playlist()[(self.spec_position() + Self::LEN - 1) % (Self::LEN as int)]
    }

    /// Path of the glTF scene asset that backs this selection.
    pub open spec fn spec_asset_path(self) -> Seq<char> {
        match self {
            CollisionSceneSelection::Scene0 => "maps/level_0.glb#Scene0"@,
            CollisionSceneSelection::Scene0b => "maps/level_0_reduced.glb#Scene0"@,
            CollisionSceneSelection::Scene1 => "maps/level_0_broken.glb#Scene0"@,
            CollisionSceneSelection::Scene2 => "maps/level_0_edit_0.glb#Scene0"@,
            CollisionSceneSelection::Scene3 => "maps/level_0_edit_1.glb#Scene0"@,
            CollisionSceneSelection::Scene4 => "maps/level_0_edit_2.glb#Scene0"@,
            CollisionSceneSelection::Scene5 => "maps/level_0_edit_3.glb#Scene0"@,
            CollisionSceneSelection::Scene6 => "maps/level_0_edit_fixed.glb#Scene0"@,
            CollisionSceneSelection::Scene7 => "maps/level_0_edit_fixed_2.glb#Scene0"@,
        }
    }

    /// Whether the scene is part of the playlist.
    pub fn is_listed(&self) -> (r: bool)
        ensures
            r == self.in_playlist(),
    {
        match self {
            CollisionSceneSelection::Scene5 | CollisionSceneSelection::Scene7 => false,
            _ => true,
        }
    }

    /// The playlist entry at `index` (the receiver is not consulted).
    pub fn index(&self, index: usize) -> (r: CollisionSceneSelection)
        requires
            index < Self::LEN,
        ensures
            r == playlist()[index as int],
    {
        match index {
            0 => CollisionSceneSelection::Scene0,
            1 => CollisionSceneSelection::Scene0b,
            2 => CollisionSceneSelection::Scene1,
            3 => CollisionSceneSelection::Scene2,
            4 => CollisionSceneSelection::Scene3,
            5 => CollisionSceneSelection::Scene4,
            _ => CollisionSceneSelection::Scene6,
        }
    }

    /// Where this scene stands in the playlist, found by a linear search.
    pub fn position(&self) -> (r: usize)
        requires
            self.in_playlist(),
        ensures
            r < Self::LEN,
            r == self.spec_position(),
            playlist()[r as int] == *self,
            forall|j: int| 0 <= j < r ==> playlist()[j] != *self,
    {
        let mut i: usize = 0;
        while i < Self::LEN
            invariant
                i <= Self::LEN,
                self.in_playlist(),
                forall|j: int| 0 <= j < i ==> playlist()[j] != *self,
            decreases Self::LEN - i,
        {
            let candidate = self.index(i);
            if candidate == *self {
                return i;
            }
            i = i + 1;
        }
        proof {
            let p = self.spec_position();
            assert(playlist()[p] == *self);
        }
        i
    }

    /// The next scene in the playlist, wrapping around.
    pub fn next(&self) -> (r: CollisionSceneSelection)
        requires
            self.in_playlist(),
        ensures
            r == self.spec_next(),
            r.in_playlist(),
    {
        let pos = self.position();
        self.index((pos + 1) % Self::LEN)
    }

    /// The previous scene in the playlist, wrapping around.
    pub fn prev(&self) -> (r: CollisionSceneSelection)
        requires
            self.in_playlist(),
        ensures
            r == self.spec_prev(),
            r.in_playlist(),
    {
        let pos = self.position();
        self.index((pos + Self::LEN - 1) % Self::LEN)
    }

    /// The asset path of the scene.
    pub fn get_asset_path(&self) -> (r: &'static str)
        ensures
            r@ == self.spec_asset_path(),
    {
        match self {
            CollisionSceneSelection::Scene0 => "maps/level_0.glb#Scene0",
            CollisionSceneSelection::Scene0b => "maps/level_0_reduced.glb#Scene0",
            CollisionSceneSelection::Scene1 => "maps/level_0_broken.glb#Scene0",
            CollisionSceneSelection::Scene2 => "maps/level_0_edit_0.glb#Scene0",
            CollisionSceneSelection::Scene3 => "maps/level_0_edit_1.glb#Scene0",
            CollisionSceneSelection::Scene4 => "maps/level_0_edit_2.glb#Scene0",
            CollisionSceneSelection::Scene5 => "maps/level_0_edit_3.glb#Scene0",
            CollisionSceneSelection::Scene6 => "maps/level_0_edit_fixed.glb#Scene0",
            CollisionSceneSelection::Scene7 => "maps/level_0_edit_fixed_2.glb#Scene0",
        }
    }

    /// The text of the on-screen help: the scene's asset path and the key bindings.
    pub open spec fn spec_ui_text(self) -> Seq<char> {
        "\nScene: "@ + self.spec_asset_path() + "\nRight/Left: toggle scenes\nEnter: fire projectiles (hold time => velocity)\n'['/']': rotate geometry\n\n0: toggle physics gizmos\n1,2,3: toggle collider vert, edge, face normals\nF: flip normals on collider mesh faces (FIX_INTERNAL_EDGES)\nZ: recreate collider (default flags -- 0!)\nQ: recreate collider (all bits except FIX_INTERNAL_EDGES)\nBackspace: recreate collider (FIX_INTERNAL_EDGES)\n            "@
    }

    /// The on-screen help for this scene.
    pub fn ui_text(&self) -> (r: String)
        ensures
            r@ == self.spec_ui_text(),
            r@.subrange(0, 8) == "\nScene: "@,
            r@.subrange(8, 8 + self.spec_asset_path().len() as int) == self.spec_asset_path(),
    {
        proof {
            lemma_ui_text_names_own_asset(*self);
        }
        let mut text = String::from_str("\nScene: ");
        text.append(self.get_asset_path());
        text.append("\nRight/Left: toggle scenes\nEnter: fire projectiles (hold time => velocity)\n'['/']': rotate geometry\n\n0: toggle physics gizmos\n1,2,3: toggle collider vert, edge, face normals\nF: flip normals on collider mesh faces (FIX_INTERNAL_EDGES)\nZ: recreate collider (default flags -- 0!)\nQ: recreate collider (all bits except FIX_INTERNAL_EDGES)\nBackspace: recreate collider (FIX_INTERNAL_EDGES)\n            ");
        text
    }
}

impl Default for CollisionSceneSelection {
    fn default() -> (r: CollisionSceneSelection)
        ensures
            r == CollisionSceneSelection::Scene0,
    {
        CollisionSceneSelection::Scene0
    }
}

/// The scene reached from `s` by `n` steps forward through the playlist.
pub open spec fn advance(s: CollisionSceneSelection, n: nat) -> CollisionSceneSelection
    decreases n,
{
    if n == 0 {
        s
    } else {
        advance(s, (n - 1) as nat).spec_next()
    }
}

/// Every playlist entry sits at its own position and lies in the playlist.
pub proof fn lemma_playlist_positions(i: int)
    requires
        0 <= i < CollisionSceneSelection::LEN,
    ensures
        playlist()[i].in_playlist(),
        playlist()[i].spec_position() == i,
{
}

/// A scene of the playlist is the playlist entry at its position, and the
/// position lies in range.
pub proof fn lemma_position_in_range(s: CollisionSceneSelection)
    requires
        s.in_playlist(),
    ensures
        0 <= s.spec_position() < CollisionSceneSelection::LEN,
        playlist()[s.spec_position()] == s,
{
}

/// Stepping forward moves one position along the playlist, wrapping around.
pub proof fn lemma_next_position(s: CollisionSceneSelection)
    requires
        s.in_playlist(),
    ensures
        s.spec_next().in_playlist(),
        s.spec_next().spec_position() == (s.spec_position() + 1) % (CollisionSceneSelection::LEN as int),
{
}

/// Stepping backward moves one position back along the playlist, wrapping around.
pub proof fn lemma_prev_position(s: CollisionSceneSelection)
    requires
        s.in_playlist(),
    ensures
        s.spec_prev().in_playlist(),
        s.spec_prev().spec_position() == (s.spec_position() + CollisionSceneSelection::LEN - 1)
            % (CollisionSceneSelection::LEN as int),
{
}

/// `prev` undoes `next` and `next` undoes `prev` on every scene of the playlist.
pub proof fn lemma_next_prev_inverse(s: CollisionSceneSelection)
    requires
        s.in_playlist(),
    ensures
        s.spec_next().spec_prev() == s,
        s.spec_prev().spec_next() == s,
{
}

/// After `n` steps forward a scene of the playlist stands `n` positions further
/// along, counted modulo the playlist's length.
pub proof fn lemma_advance_position(s: CollisionSceneSelection, n: nat)
    requires
        s.in_playlist(),
    ensures
        advance(s, n).in_playlist(),
        advance(s, n).spec_position() == (s.spec_position() + n) % (CollisionSceneSelection::LEN as int),
    decreases n,
{
    if n > 0 {
        lemma_advance_position(s, (n - 1) as nat);
        lemma_next_position(advance(s, (n - 1) as nat));
        let p = s.spec_position();
        let k = (p + n - 1) % 7;
        assert((k + 1) % 7 == (p + n) % 7) by (nonlinear_arith)
            requires
                k == (p + n - 1) % 7,
                0 <= p,
                n >= 1,
        ;
    }
}

/// Two scenes of the playlist at the same position are the same scene.
pub proof fn lemma_position_injective(s: CollisionSceneSelection, t: CollisionSceneSelection)
    requires
        s.in_playlist(),
        t.in_playlist(),
        s.spec_position() == t.spec_position(),
    ensures
        s == t,
{
}

/// The playlist is one cycle: stepping forward through it as many times as it
/// has entries comes back to the starting scene.
pub proof fn lemma_cycle_returns(s: CollisionSceneSelection)
    requires
        s.in_playlist(),
    ensures
        advance(s, CollisionSceneSelection::LEN as nat) == s,
{
    lemma_advance_position(s, CollisionSceneSelection::LEN as nat);
    lemma_position_in_range(s);
    lemma_position_injective(advance(s, CollisionSceneSelection::LEN as nat), s);
}

/// Stepping forward from any scene of the playlist reaches every scene of the
/// playlist within fewer steps than the playlist has entries.
pub proof fn lemma_every_scene_reached(s: CollisionSceneSelection, t: CollisionSceneSelection)
    requires
        s.in_playlist(),
        t.in_playlist(),
    ensures
        exists|n: nat| n < CollisionSceneSelection::LEN && #[trigger] advance(s, n) == t,
{
    lemma_position_in_range(s);
    lemma_position_in_range(t);
    let ps = s.spec_position();
    let pt = t.spec_position();
    let n: nat = ((pt - ps + 7) % 7) as nat;
    lemma_advance_position(s, n);
    assert((ps + n) % 7 == pt) by (nonlinear_arith)
        requires
            0 <= ps < 7,
            0 <= pt < 7,
            n == (pt - ps + 7) % 7,
    ;
    lemma_position_injective(advance(s, n), t);
}

/// The help text of every scene starts with "Scene: " on its own line,
/// followed by that scene's own asset path.
pub proof fn lemma_ui_text_names_own_asset(s: CollisionSceneSelection)
    ensures
        s.spec_ui_text().subrange(0, 8) == "\nScene: "@,
        s.spec_ui_text().subrange(8, 8 + s.spec_asset_path().len() as int) == s.spec_asset_path(),
{
    reveal_strlit("\nScene: ");
    let p = s.spec_asset_path();
    let t = s.spec_ui_text();
    assert(t.subrange(0, 8) =~= "\nScene: "@);
    assert(t.subrange(8, 8 + p.len() as int) =~= p);
}

/// Different scenes are backed by different assets.
pub proof fn lemma_asset_paths_distinct(s: CollisionSceneSelection, t: CollisionSceneSelection)
    requires
        s != t,
    ensures
        s.spec_asset_path() != t.spec_asset_path(),
{
    reveal_strlit("maps/level_0.glb#Scene0");
    reveal_strlit("maps/level_0_reduced.glb#Scene0");
    reveal_strlit("maps/level_0_broken.glb#Scene0");
    reveal_strlit("maps/level_0_edit_0.glb#Scene0");
    reveal_strlit("maps/level_0_edit_1.glb#Scene0");
    reveal_strlit("maps/level_0_edit_2.glb#Scene0");
    reveal_strlit("maps/level_0_edit_3.glb#Scene0");
    reveal_strlit("maps/level_0_edit_fixed.glb#Scene0");
    reveal_strlit("maps/level_0_edit_fixed_2.glb#Scene0");
    let a = s.spec_asset_path();
    let b = t.spec_asset_path();
    if a.len() == b.len() {
        // paths of equal length differ in the character after "maps/level_0"
        assert(a[12] != b[12] || a[17] != b[17] || a[18] != b[18]);
    }
}

} // verus!
