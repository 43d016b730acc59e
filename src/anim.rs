//! The animation-playback facts the behaviour controller reads, and the
//! requests it hands back to the animation player.
use vstd::prelude::*;

verus! {

/// The two enemy species.
#[derive(Clone, Copy, Debug, PartialEq, Eq, Structural)]
pub enum Species {
    Plum,
    Spider,
}

/// The clips the behaviour controller refers to. Each species has its own
/// clip under each of these roles.
#[derive(Clone, Copy, Debug, PartialEq, Eq, Structural)]
pub enum Clip {
    Attack,
    Walk,
    TurnLeft,
    TurnRight,
}

/// The name of a clip in a species' animation index table.
pub open spec fn clip_name_spec(species: Species, clip: Clip) -> Seq<char> {
    match (species, clip) {
        (_, Clip::Attack) => "Attack"@,
        (Species::Plum, Clip::Walk) => "Fast_Walk_Cycle"@,
        (Species::Plum, Clip::TurnLeft) => "Fast_Turning_Left"@,
        (Species::Plum, Clip::TurnRight) => "Fast_Turning_Right"@,
        (Species::Spider, Clip::Walk) => "Wandering_Walk_Cycle"@,
        (Species::Spider, Clip::TurnLeft) => "Wandering_Turn_Left"@,
        (Species::Spider, Clip::TurnRight) => "Wandering_Turn_Right"@,
    }
}

/// Looks up the name under which a species' model stores a clip.
pub fn clip_name(species: Species, clip: Clip) -> (r: &'static str)
    ensures
        r@ == clip_name_spec(species, clip),
{
    match (species, clip) {
        (_, Clip::Attack) => "Attack",
        (Species::Plum, Clip::Walk) => "Fast_Walk_Cycle",
        (Species::Plum, Clip::TurnLeft) => "Fast_Turning_Left",
        (Species::Plum, Clip::TurnRight) => "Fast_Turning_Right",
        (Species::Spider, Clip::Walk) => "Wandering_Walk_Cycle",
        (Species::Spider, Clip::TurnLeft) => "Wandering_Turn_Left",
        (Species::Spider, Clip::TurnRight) => "Wandering_Turn_Right",
    }
}

/// Which clips the animation player reports as playing. During a blend the
/// clip being faded out still counts as playing, so several may be set.
#[derive(Clone, Copy, Debug, PartialEq, Eq, Structural)]
pub struct PlayingClips {
    pub attack: bool,
    pub walk: bool,
    pub turn_left: bool,
    pub turn_right: bool,
}

impl PlayingClips {
    /// Whether `clip` is among the playing clips.
    pub open spec fn has(self, clip: Clip) -> bool {
        match clip {
            Clip::Attack => self.attack,
            Clip::Walk => self.walk,
            Clip::TurnLeft => self.turn_left,
            Clip::TurnRight => self.turn_right,
        }
    }

    /// The set of clips after `clip` has been started: it plays, and the
    /// others keep their state while they blend out.
    pub open spec fn started(self, clip: Clip) -> PlayingClips {
        PlayingClips {
            attack: self.attack || clip == Clip::Attack,
            walk: self.walk || clip == Clip::Walk,
            turn_left: self.turn_left || clip == Clip::TurnLeft,
            turn_right: self.turn_right || clip == Clip::TurnRight,
        }
    }

    /// No clip playing.
    pub fn none() -> (r: PlayingClips)
        ensures
            r == (PlayingClips { attack: false, walk: false, turn_left: false, turn_right: false }),
            forall|c: Clip| !r.has(c),
    {
        PlayingClips { attack: false, walk: false, turn_left: false, turn_right: false }
    }

    /// Whether `clip` is playing.
    pub fn playing(&self, clip: Clip) -> (r: bool)
        ensures
            r == self.has(clip),
    {
        match clip {
            Clip::Attack => self.attack,
            Clip::Walk => self.walk,
            Clip::TurnLeft => self.turn_left,
            Clip::TurnRight => self.turn_right,
        }
    }

    /// Records that `clip` has been started.
    pub fn start(&mut self, clip: Clip)
        ensures
            *final(self) == old(self).started(clip),
            final(self).has(clip),
            forall|c: Clip| c != clip ==> final(self).has(c) == old(self).has(c),
    {
        match clip {
            Clip::Attack => self.attack = true,
            Clip::Walk => self.walk = true,
            Clip::TurnLeft => self.turn_left = true,
            Clip::TurnRight => self.turn_right = true,
        }
    }
}

/// A request to the animation player: blend into `clip` at `speed` times
/// its authored rate, looping or playing once and holding the last pose.
#[derive(Clone, Copy, Debug, PartialEq, Eq, Structural)]
pub struct PlayRequest {
    pub clip: Clip,
    pub speed: u32,
    pub looping: bool,
}

/// A model's animation index table: each clip name it holds, with the node
/// under which its animation graph plays that clip. Names are unique.
pub struct AnimationIndices {
    entries: Vec<(String, u32)>,
}

impl AnimationIndices {
    /// No two entries share a name.
    pub closed spec fn wf(&self) -> bool {
        forall|i: int, j: int|
            0 <= i < self.entries@.len() && 0 <= j < self.entries@.len() && i != j
                ==> #[trigger] self.entries@[i].0@ != #[trigger] self.entries@[j].0@
    }

    /// The table holds a clip named `name`.
    pub closed spec fn has_name(&self, name: Seq<char>) -> bool {
        exists|i: int| 0 <= i < self.entries@.len() && #[trigger] self.entries@[i].0@ == name
    }

    /// The table maps `name` to `node`.
    pub closed spec fn maps(&self, name: Seq<char>, node: u32) -> bool {
        exists|i: int|
            0 <= i < self.entries@.len() && #[trigger] self.entries@[i].0@ == name
                && self.entries@[i].1 == node
    }

    /// Number of clips in the table.
    pub closed spec fn size(&self) -> nat {
        self.entries@.len()
    }

    /// In a well-formed table a name maps to one node at most.
    pub proof fn lemma_maps_unique(&self, name: Seq<char>, a: u32, b: u32)
        requires
            self.wf(),
            self.maps(name, a),
            self.maps(name, b),
        ensures
            a == b,
    {
    }

    /// An empty table.
    pub fn new() -> (r: AnimationIndices)
        ensures
            r.wf(),
            r.size() == 0,
            forall|name: Seq<char>| !r.has_name(name),
    {
        AnimationIndices { entries: Vec::new() }
    }

    /// Number of clips in the table.
    pub fn len(&self) -> (r: usize)
        ensures
            r == self.size(),
    {
        self.entries.len()
    }

    /// The position of `name` in the table, if it is there.
    fn position(&self, name: &String) -> (r: Option<usize>)
        ensures
            match r {
                Some(i) => i < self.entries@.len() && self.entries@[i as int].0@ == name@,
                None => !self.has_name(name@),
            },
    {
        let mut i: usize = 0;
        while i < self.entries.len()
            invariant
                0 <= i <= self.entries@.len(),
                forall|j: int| 0 <= j < i ==> self.entries@[j].0@ != name@,
            decreases self.entries@.len() - i,
        {
            if self.entries[i].0 == *name {
                return Some(i);
            }
            i = i + 1;
        }
        None
    }

    /// Records that clip `name` plays under `node`, replacing an earlier
    /// entry of that name.
    pub fn insert(&mut self, name: String, node: u32)
        requires
            old(self).wf(),
        ensures
            final(self).wf(),
            final(self).has_name(name@),
            final(self).maps(name@, node),
            forall|other: Seq<char>|
                other != name@ ==> (final(self).has_name(other) == old(self).has_name(other)),
            forall|other: Seq<char>, v: u32|
                other != name@ ==> (final(self).maps(other, v) == old(self).maps(other, v)),
    {
        let ghost key = name@;
        let ghost o = self.entries@;
        match self.position(&name) {
            Some(i) => {
                self.entries.set(i, (name, node));
                assert(self.entries@[i as int].0@ == key);
            },
            None => {
                self.entries.push((name, node));
                assert(self.entries@[o.len() as int].0@ == key);
            },
        }
        let ghost n = self.entries@;
        assert(forall|j: int| 0 <= j < o.len() && o[j].0@ != key ==> n[j] == o[j]);
        assert forall|other: Seq<char>| other != key implies #[trigger] self.has_name(other)
            == old(self).has_name(other) by {
            if self.has_name(other) {
                let j = choose|j: int| 0 <= j < n.len() && #[trigger] n[j].0@ == other;
                assert(o[j].0@ == other);
            }
            if old(self).has_name(other) {
                let j = choose|j: int| 0 <= j < o.len() && #[trigger] o[j].0@ == other;
                assert(n[j].0@ == other);
            }
        }
        assert forall|other: Seq<char>, v: u32| other != key implies #[trigger] self.maps(other, v)
            == old(self).maps(other, v) by {
            if self.maps(other, v) {
                let j = choose|j: int| 0 <= j < n.len() && #[trigger] n[j].0@ == other && n[j].1 == v;
                assert(o[j].0@ == other);
            }
            if old(self).maps(other, v) {
                let j = choose|j: int| 0 <= j < o.len() && #[trigger] o[j].0@ == other && o[j].1 == v;
                assert(n[j].0@ == other);
            }
        }
    }

    /// The table of a model's named clips, `entries[i]` naming a clip and its
    /// node. It holds exactly the names listed; a name listed twice keeps its
    /// last node.
    pub fn from_entries(entries: Vec<(String, u32)>) -> (r: AnimationIndices)
        ensures
            r.wf(),
            forall|name: Seq<char>|
                r.has_name(name) <==> exists|i: int|
                    0 <= i < entries@.len() && #[trigger] entries@[i].0@ == name,
            forall|i: int|
                0 <= i < entries@.len() && (forall|j: int|
                    i < j < entries@.len() ==> entries@[j].0@ != entries@[i].0@) ==> r.maps(
                    #[trigger] entries@[i].0@,
                    entries@[i].1,
                ),
    {
        let mut r = AnimationIndices::new();
        let mut k: usize = 0;
        while k < entries.len()
            invariant
                0 <= k <= entries@.len(),
                r.wf(),
                forall|name: Seq<char>|
                    r.has_name(name) <==> exists|i: int|
                        0 <= i < k && #[trigger] entries@[i].0@ == name,
                forall|i: int|
                    0 <= i < k && (forall|j: int| i < j < k ==> entries@[j].0@ != entries@[i].0@)
                        ==> r.maps(#[trigger] entries@[i].0@, entries@[i].1),
            decreases entries@.len() - k,
        {
            let name = entries[k].0.clone();
            let node = entries[k].1;
            let ghost prev = r;
            r.insert(name, node);
            assert forall|nm: Seq<char>| r.has_name(nm) <==> exists|i: int|
                0 <= i < k + 1 && #[trigger] entries@[i].0@ == nm by {
                if nm == entries@[k as int].0@ {
                    assert(entries@[k as int].0@ == nm);
                } else if prev.has_name(nm) {
                    let i = choose|i: int| 0 <= i < k && #[trigger] entries@[i].0@ == nm;
                    assert(entries@[i].0@ == nm);
                } else if exists|i: int| 0 <= i < k + 1 && #[trigger] entries@[i].0@ == nm {
                    let i = choose|i: int| 0 <= i < k + 1 && #[trigger] entries@[i].0@ == nm;
                    assert(i < k);
                }
            }
            assert forall|i: int|
                0 <= i < k + 1 && (forall|j: int|
                    i < j < k + 1 ==> entries@[j].0@ != entries@[i].0@) implies r.maps(
                #[trigger] entries@[i].0@,
                entries@[i].1,
            ) by {
                if i < k {
                    assert(entries@[k as int].0@ != entries@[i].0@);
                    assert(forall|j: int| i < j < k ==> entries@[j].0@ != entries@[i].0@);
                    assert(prev.maps(entries@[i].0@, entries@[i].1));
                }
            }
            k = k + 1;
        }
        r
    }

    /// The node of clip `name`, if the table holds it.
    pub fn get(&self, name: &str) -> (r: Option<u32>)
        requires
            self.wf(),
        ensures
            match r {
                Some(node) => self.maps(name@, node),
                None => !self.has_name(name@),
            },
    {
        let key = name.to_owned();
        match self.position(&key) {
            Some(i) => Some(self.entries[i].1),
            None => None,
        }
    }

    /// The node of a species' clip in its role, if the table holds it.
    pub fn node_of(&self, species: Species, clip: Clip) -> (r: Option<u32>)
        requires
            self.wf(),
        ensures
            match r {
                Some(node) => self.maps(clip_name_spec(species, clip), node),
                None => !self.has_name(clip_name_spec(species, clip)),
            },
    {
        self.get(clip_name(species, clip))
    }

    /// Whether the table holds every clip the controller asks for of
    /// `species`.
    pub fn has_all_clips(&self, species: Species) -> (r: bool)
        requires
            self.wf(),
        ensures
            r == (self.has_name(clip_name_spec(species, Clip::Attack))
                && self.has_name(clip_name_spec(species, Clip::Walk))
                && self.has_name(clip_name_spec(species, Clip::TurnLeft))
                && self.has_name(clip_name_spec(species, Clip::TurnRight))),
    {
        self.node_of(species, Clip::Attack).is_some() && self.node_of(species, Clip::Walk).is_some()
            && self.node_of(species, Clip::TurnLeft).is_some() && self.node_of(
            species,
            Clip::TurnRight,
        ).is_some()
    }
}

} // verus!
