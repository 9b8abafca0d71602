//! Towers: when one fires and at what, and which one the player has picked.

use vstd::prelude::*;
use crate::distance::{is_nearest, nearest_in_range, none_within};

verus! {

/// Decides whether a tower shoots this frame and at which target.
///
/// `keys` holds, for each target in the engine's order, the key of the
/// squared distance from the tower's muzzle to the target; `range_sq` is the
/// key of the tower's squared range. A tower whose timer has not just run
/// out holds its fire; one that may fire picks the nearest target within
/// range, the first where several are equally near.
pub fn spawn_projectiles(timer_just_finished: bool, keys: &Vec<u32>, range_sq: u32) -> (shot: Option<
    usize,
>)
    ensures
        match shot {
            Some(i) => timer_just_finished && is_nearest(keys@, range_sq, i as int),
            None => !timer_just_finished || none_within(keys@, range_sq),
        },
{
    if !timer_just_finished {
        return None;
    }
    nearest_in_range(keys, range_sq)
}

/// The tower that the player has picked, by the number of its entity.
#[derive(Clone, Copy, Debug, PartialEq, Eq, Structural)]
pub struct SelectedTower(pub Option<u64>);

/// What a click on a tower did to the selection.
#[derive(Clone, Copy, Debug, PartialEq, Eq, Hash, Structural)]
pub enum TowerClick {
    Selected,
    Deselected,
}

/// What to do with the material of one mesh of a tower.
#[derive(Clone, Copy, Debug, PartialEq, Eq, Hash, Structural)]
pub enum HighlightAction {
    /// Remember the mesh's material, then put the highlight on.
    Highlight,
    /// Put the remembered material back and forget it.
    Restore,
    /// Leave the mesh as it is.
    Keep,
}

/// Where the pointer stands to the interface panels when a click arrives.
#[derive(Clone, Copy, Debug, PartialEq, Eq, Hash, Structural)]
pub enum PanelPointer {
    /// The interface could not be asked.
    Unknown,
    /// A panel wants the click for itself.
    Wanted,
    /// The click is the world's.
    Free,
}

impl Default for SelectedTower {
    /// Nothing is picked at the start.
    fn default() -> (s: SelectedTower)
        ensures
            s.0 is None,
    {
        SelectedTower(None)
    }
}

impl SelectedTower {
    /// The selection after a click on the tower `root`: a click on the
    /// picked tower drops it, a click on any other picks that one.
    pub open spec fn clicked(self, root: u64) -> SelectedTower {
        if self.0 == Some(root) {
            SelectedTower(None)
        } else {
            SelectedTower(Some(root))
        }
    }

    /// A click on the tower `root`.
    pub fn on_tower_click(&mut self, root: u64) -> (click: TowerClick)
        ensures
            *final(self) == old(self).clicked(root),
            click == if old(self).0 == Some(root) {
                TowerClick::Deselected
            } else {
                TowerClick::Selected
            },
    {
        let same = match self.0 {
            Some(picked) => picked == root,
            None => false,
        };
        if same {
            self.0 = None;
            TowerClick::Deselected
        } else {
            self.0 = Some(root);
            TowerClick::Selected
        }
    }

    /// Whether a tower is picked.
    pub fn tower_selected(&self) -> (b: bool)
        ensures
            b == (self.0 is Some),
    {
        self.0.is_some()
    }

    /// What a mesh of the tower `root` is owed, given whether its own
    /// material is already put aside (`remembered`).
    pub open spec fn highlight_for(self, root: u64, remembered: bool) -> HighlightAction {
        if self.0 == Some(root) {
            if remembered {
                HighlightAction::Keep
            } else {
                HighlightAction::Highlight
            }
        } else {
            if remembered {
                HighlightAction::Restore
            } else {
                HighlightAction::Keep
            }
        }
    }

    /// Brings one mesh of the tower `root` in line with the selection: the
    /// meshes of the picked tower are highlighted once, those of every other
    /// tower get their own material back once.
    pub fn apply_tower_selection(&self, root: u64, remembered: bool) -> (action: HighlightAction)
        ensures
            action == self.highlight_for(root, remembered),
    {
        let should_highlight = match self.0 {
            Some(picked) => picked == root,
            None => false,
        };
        if should_highlight {
            if remembered {
                HighlightAction::Keep
            } else {
                HighlightAction::Highlight
            }
        } else {
            if remembered {
                HighlightAction::Restore
            } else {
                HighlightAction::Keep
            }
        }
    }

    /// Whether a frame's click lands on empty ground: the left button went
    /// down, no tower took the click, and no panel wants it.
    pub open spec fn empty_click(left_just_pressed: bool, tower_clicked: bool, pointer: PanelPointer)
        -> bool {
        left_just_pressed && !tower_clicked && pointer == PanelPointer::Free
    }

    /// Drops the selection on a click on empty ground. Returns whether a
    /// tower was dropped.
    pub fn deselect_on_empty_click(
        &mut self,
        left_just_pressed: bool,
        tower_clicked: bool,
        pointer: PanelPointer,
    ) -> (dropped: bool)
        ensures
            dropped == (Self::empty_click(left_just_pressed, tower_clicked, pointer) && old(
                self,
            ).0 is Some),
            final(self).0 == if Self::empty_click(left_just_pressed, tower_clicked, pointer) {
                None
            } else {
                old(self).0
            },
    {
        if !left_just_pressed {
            return false;
        }
        if tower_clicked {
            return false;
        }
        if pointer != PanelPointer::Free {
            return false;
        }
        if self.0.is_some() {
            self.0 = None;
            true
        } else {
            false
        }
    }
}

/// After the meshes of every tower were brought in line, a second pass has
/// nothing left to do: what was highlighted is remembered, what was restored
/// is not.
pub proof fn selection_settles(selected: SelectedTower, root: u64, remembered: bool)
    ensures
        ({
            let first = selected.highlight_for(root, remembered);
            let now_remembered = match first {
                HighlightAction::Highlight => true,
                HighlightAction::Restore => false,
                HighlightAction::Keep => remembered,
            };
            selected.highlight_for(root, now_remembered) == HighlightAction::Keep
        }),
{
}

/// Two clicks on one tower: where that tower was picked before, it is picked
/// again; in every other case nothing is picked afterwards.
pub proof fn click_twice_deselects(selected: SelectedTower, root: u64)
    ensures
        selected.clicked(root).clicked(root).0 == if selected.0 == Some(root) {
            Some(root)
        } else {
            None
        },
{
}

/// The flag that a tower took this frame's click.
#[derive(Clone, Copy, Debug, PartialEq, Eq, Structural)]
pub struct TowerClickFlag(pub bool);

impl Default for TowerClickFlag {
    fn default() -> (f: TowerClickFlag)
        ensures
            !f.0,
    {
        TowerClickFlag(false)
    }
}

/// Lowers the flag at the start of a frame.
pub fn reset_tower_click_flag(flag: &mut TowerClickFlag)
    ensures
        !final(flag).0,
{
    flag.0 = false;
}

} // verus!

verus! {

/// The catalogue of tower definitions, each under its id.
///
/// The catalogue holds one definition per id. It keeps the ids in the order
/// in which they first came, so that a listing always reads the same.
pub struct TowerDB<D> {
    entries: Vec<(String, D)>,
}

impl<D> View for TowerDB<D> {
    type V = Map<Seq<char>, D>;

    /// The catalogue as a map from id to definition.
    closed spec fn view(&self) -> Map<Seq<char>, D> {
        Map::new(
            |id: Seq<char>|
                exists|i: int| 0 <= i < self.entries@.len() && (#[trigger] self.entries@[i]).0@ == id,
            |id: Seq<char>|
                self.entries@[choose|i: int|
                    0 <= i < self.entries@.len() && (#[trigger] self.entries@[i]).0@ == id].1,
        )
    }
}

impl<D> TowerDB<D> {
    /// No id stands in the catalogue twice.
    pub closed spec fn wf(&self) -> bool {
        forall|i: int, j: int|
            0 <= i < j < self.entries@.len() ==> (#[trigger] self.entries@[i]).0@ != (
            #[trigger] self.entries@[j]).0@
    }

    /// The ids in the order of the listing.
    pub closed spec fn ids(&self) -> Seq<Seq<char>> {
        Seq::new(self.entries@.len(), |i: int| self.entries@[i].0@)
    }

    /// An empty catalogue.
    pub fn new() -> (db: Self)
        ensures
            db.wf(),
            db@ == Map::<Seq<char>, D>::empty(),
            db.ids() == Seq::<Seq<char>>::empty(),
    {
        let db = TowerDB { entries: Vec::new() };
        assert(db@ =~= Map::<Seq<char>, D>::empty());
        assert(db.ids() =~= Seq::<Seq<char>>::empty());
        db
    }

    fn position(&self, id: &String) -> (at: Option<usize>)
        ensures
            match at {
                Some(i) => i < self.entries@.len() && self.entries@[i as int].0@ == id@,
                None => forall|i: int|
                    0 <= i < self.entries@.len() ==> (#[trigger] self.entries@[i]).0@ != id@,
            },
    {
        let mut i: usize = 0;
        while i < self.entries.len()
            invariant
                i <= self.entries@.len(),
                forall|k: int| 0 <= k < i ==> (#[trigger] self.entries@[k]).0@ != id@,
            decreases self.entries@.len() - i,
        {
            if self.entries[i].0 == *id {
                return Some(i);
            }
            i += 1;
        }
        None
    }

    /// The definition under `id`, if the catalogue has one.
    pub fn get(&self, id: &str) -> (found: Option<&D>)
        requires
            self.wf(),
        ensures
            match found {
                Some(def) => self@.dom().contains(id@) && *def == self@[id@],
                None => !self@.dom().contains(id@),
            },
    {
        let key = String::from_str(id);
        match self.position(&key) {
            Some(i) => {
                assert(self.entries@[i as int].0@ == id@);
                Some(&self.entries[i].1)
            },
            None => None,
        }
    }

    /// Puts `def` under `id`. A definition that stood under that id before
    /// is replaced and keeps its place in the listing; a new id goes to the
    /// listing's end.
    pub fn insert(&mut self, id: String, def: D)
        requires
            old(self).wf(),
        ensures
            final(self).wf(),
            final(self)@ == old(self)@.insert(id@, def),
            final(self).ids() == if old(self)@.dom().contains(id@) {
                old(self).ids()
            } else {
                old(self).ids().push(id@)
            },
    {
        let ghost before = self.entries@;
        let ghost at: int;
        match self.position(&id) {
            Some(i) => {
                proof {
                    at = i as int;
                }
                self.entries.set(i, (id, def));
            },
            None => {
                proof {
                    at = before.len() as int;
                }
                self.entries.push((id, def));
            },
        }
        proof {
            let after = self.entries@;
            assert(0 <= at < after.len() && after[at].0@ == id@ && after[at].1 == def);
            assert(forall|k: int| 0 <= k < after.len() && k != at ==> after[k] == before[k]);
            assert forall|key: Seq<char>| #[trigger]
                self@.dom().contains(key) <==> old(self)@.insert(id@, def).dom().contains(key) by {
                if old(self)@.dom().contains(key) {
                    let k = choose|k: int| 0 <= k < before.len() && (#[trigger] before[k]).0@ == key;
                    assert(after[k].0@ == key);
                }
                if self@.dom().contains(key) && key != id@ {
                    let k = choose|k: int| 0 <= k < after.len() && (#[trigger] after[k]).0@ == key;
                    assert(before[k].0@ == key);
                }
                if key == id@ {
                    assert(after[at].0@ == key);
                }
            }
            assert forall|key: Seq<char>| #[trigger] self@.dom().contains(key) implies self@[key]
                == old(self)@.insert(id@, def)[key] by {
                let k = choose|k: int| 0 <= k < after.len() && (#[trigger] after[k]).0@ == key;
                if key == id@ {
                    assert(k == at);
                } else {
                    let k0 = choose|k0: int|
                        0 <= k0 < before.len() && (#[trigger] before[k0]).0@ == key;
                    assert(before[k].0@ == key);
                    assert(k0 == k);
                }
            }
            assert(self@ =~= old(self)@.insert(id@, def));
            if old(self)@.dom().contains(id@) {
                let k = choose|k: int| 0 <= k < before.len() && (#[trigger] before[k]).0@ == id@;
                assert(at == k);
                assert(self.ids() =~= old(self).ids());
            } else {
                if at < before.len() {
                    assert(before[at].0@ == id@);
                }
                assert(self.ids() =~= old(self).ids().push(id@));
            }
        }
    }

    /// How many definitions the catalogue holds.
    pub fn len(&self) -> (n: usize)
        ensures
            n == self.ids().len(),
    {
        self.entries.len()
    }

    /// The id and the definition at place `i` of the listing.
    pub fn entry(&self, i: usize) -> (e: (&String, &D))
        requires
            self.wf(),
            i < self.ids().len(),
        ensures
            e.0@ == self.ids()[i as int],
            self@.dom().contains(e.0@),
            *e.1 == self@[e.0@],
    {
        let pair = &self.entries[i];
        assert(self.entries@[i as int].0@ == pair.0@);
        (&pair.0, &pair.1)
    }

    /// The listing names every id of the catalogue, each once.
    pub proof fn ids_are_the_keys(&self)
        requires
            self.wf(),
        ensures
            self.ids().no_duplicates(),
            forall|id: Seq<char>| self@.dom().contains(id) <==> self.ids().contains(id),
    {
        assert forall|id: Seq<char>| self@.dom().contains(id) implies self.ids().contains(id) by {
            let k = choose|k: int|
                0 <= k < self.entries@.len() && (#[trigger] self.entries@[k]).0@ == id;
            assert(self.ids()[k] == id);
        }
        assert forall|id: Seq<char>| self.ids().contains(id) implies self@.dom().contains(id) by {
            let k = choose|k: int| 0 <= k < self.ids().len() && self.ids()[k] == id;
            assert(self.entries@[k].0@ == id);
        }
        assert forall|i: int, j: int|
            0 <= i < self.ids().len() && 0 <= j < self.ids().len() && i != j implies self.ids()[i]
            != self.ids()[j] by {
            if i < j {
                assert(self.entries@[i].0@ != self.entries@[j].0@);
            } else {
                assert(self.entries@[j].0@ != self.entries@[i].0@);
            }
        }
    }
}

/// The towers that stand on the field when a game opens.
pub struct OpeningTowers<'a, D> {
    /// The definition under the id `basic`; it stands at `BASIC_AT`.
    pub basic: &'a D,
    /// The definition under the id `sniper`; it stands at `SNIPER_AT`.
    pub sniper: &'a D,
}

/// Where the opening basic tower stands, in whole units along the three axes.
pub const BASIC_AT: (i32, i32, i32) = (0, 0, 0);

/// Where the opening sniper tower stands, in whole units along the three axes.
pub const SNIPER_AT: (i32, i32, i32) = (3, 0, 0);

/// Looks up the two towers that a game opens with. The catalogue must hold
/// a definition under each of the ids `basic` and `sniper`.
pub fn spawn_some_towers<'a, D>(db: &'a TowerDB<D>) -> (towers: OpeningTowers<'a, D>)
    requires
        db.wf(),
        db@.dom().contains("basic"@),
        db@.dom().contains("sniper"@),
    ensures
        *towers.basic == db@["basic"@],
        *towers.sniper == db@["sniper"@],
{
    let basic = db.get("basic");
    let sniper = db.get("sniper");
    OpeningTowers { basic: basic.unwrap(), sniper: sniper.unwrap() }
}

} // verus!
