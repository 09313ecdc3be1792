use vstd::prelude::*;

verus! {

/// The name under which the registry keeps its placeholder texture.
pub const PLACEHOLDER_TEXTURE_NAME: &'static str = "placeholder_texture.png";

/// Textures by name, holding from the start a placeholder that stands in for any
/// name that was never loaded. Textures are kept for the registry's whole life.
pub struct TextureRegistry<T> {
    entries: Vec<(String, T)>,
}

/// The names of `entries`, in order.
pub open spec fn entry_names<T>(entries: Seq<(String, T)>) -> Seq<Seq<char>> {
    entries.map_values(|e: (String, T)| e.0@)
}

impl<T> TextureRegistry<T> {
    /// Each name and its texture, in the order they were loaded, the placeholder first.
    pub closed spec fn entries(&self) -> Seq<(Seq<char>, T)> {
        self.entries@.map_values(|e: (String, T)| (e.0@, e.1))
    }

    /// The names loaded so far.
    pub open spec fn names(&self) -> Seq<Seq<char>> {
        self.entries().map_values(|e: (Seq<char>, T)| e.0)
    }

    /// No name is held twice, and the placeholder comes first.
    pub open spec fn wf(&self) -> bool {
        &&& self.entries().len() >= 1
        &&& self.entries()[0].0 == PLACEHOLDER_TEXTURE_NAME@
        &&& forall|i: int, j: int|
            0 <= i < self.entries().len() && 0 <= j < self.entries().len() && i != j
                ==> self.entries()[i].0 != self.entries()[j].0
    }

    /// The texture that a draw naming `name` samples: the one loaded under that name,
    /// else the placeholder.
    pub open spec fn resolved(&self, name: Option<Seq<char>>) -> T {
        match name {
            Some(n) => if self.names().contains(n) {
                self.entries()[self.names().index_of(n)].1
            } else {
                self.entries()[0].1
            },
            None => self.entries()[0].1,
        }
    }

    /// A registry that holds only `placeholder`.
    pub fn new(placeholder: T) -> (r: TextureRegistry<T>)
        ensures
            r.wf(),
            r.entries() == seq![(PLACEHOLDER_TEXTURE_NAME@, placeholder)],
    {
        let mut entries: Vec<(String, T)> = Vec::new();
        entries.push((String::from_str(PLACEHOLDER_TEXTURE_NAME), placeholder));
        let r = TextureRegistry { entries };
        assert(r.entries() =~= seq![(PLACEHOLDER_TEXTURE_NAME@, placeholder)]);
        r
    }

    /// The position of `name` among the loaded names, if it was loaded.
    pub fn find(&self, name: &String) -> (r: Option<usize>)
        ensures
            r is None <==> !self.names().contains(name@),
            match r {
                Some(i) => i < self.entries().len() && self.entries()[i as int].0 == name@,
                None => true,
            },
    {
        let mut i: usize = 0;
        while i < self.entries.len()
            invariant
                i <= self.entries@.len(),
                forall|j: int| 0 <= j < i ==> self.names()[j] != name@,
            decreases self.entries@.len() - i,
        {
            assert(self.names()[i as int] == self.entries@[i as int].0@);
            if self.entries[i].0.eq(name) {
                return Some(i);
            }
            i = i + 1;
        }
        None
    }

    /// Keeps `texture` under `name` unless that name is already taken, and says
    /// whether it did; a second texture under one name is dropped.
    pub fn insert(&mut self, name: String, texture: T) -> (r: bool)
        requires
            old(self).wf(),
        ensures
            final(self).wf(),
            r == !old(self).names().contains(name@),
            r ==> final(self).entries() == old(self).entries().push((name@, texture)),
            !r ==> final(self).entries() == old(self).entries(),
    {
        match self.find(&name) {
            Some(_) => false,
            None => {
                let ghost before = self.entries();
                self.entries.push((name, texture));
                assert(self.entries() =~= before.push((name@, texture)));
                proof {
                    assert forall|i: int, j: int|
                        0 <= i < self.entries().len() && 0 <= j < self.entries().len() && i
                            != j implies self.entries()[i].0 != self.entries()[j].0 by {
                        if i == before.len() {
                            assert(old(self).names()[j] == before[j].0);
                        } else if j == before.len() {
                            assert(old(self).names()[i] == before[i].0);
                        }
                    }
                }
                true
            },
        }
    }

    /// The texture that a draw naming `name` samples.
    pub fn resolve(&self, name: &Option<String>) -> (r: &T)
        requires
            self.wf(),
        ensures
            *r == self.resolved(match name {
                Some(s) => Some(s@),
                None => None,
            }),
    {
        match name {
            Some(n) => match self.find(n) {
                Some(i) => {
                    proof {
                        self.names().index_of_first_ensures(n@);
                    }
                    &self.entries[i].1
                },
                None => &self.entries[0].1,
            },
            None => &self.entries[0].1,
        }
    }
}

} // verus!
