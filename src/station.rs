use vstd::prelude::*;

verus! {

/// A canonical station identifier: one code, or several equivalent codes of
/// which any one is a match.
pub enum StationRef {
    Single(String),
    Multi(Vec<String>),
}

impl StationRef {
    /// The accepted codes of the station.
    pub open spec fn codes(&self) -> Seq<Seq<char>> {
        match self {
            StationRef::Single(code) => seq![code@],
            StationRef::Multi(codes) => codes@.map_values(|c: String| c@),
        }
    }

    pub open spec fn spec_contains(&self, code: Seq<char>) -> bool {
        self.codes().contains(code)
    }

    /// Whether `code` is one of the station's accepted codes.
    pub fn contains(&self, code: &String) -> (r: bool)
        ensures
            r == self.spec_contains(code@),
    {
        match self {
            StationRef::Single(own) => {
                let r = *own == *code;
                proof {
                    if r {
                        assert(self.codes()[0] == code@);
                    }
                }
                r
            },
            StationRef::Multi(codes) => {
                let mut i: usize = 0;
                while i < codes.len()
                    invariant
                        i <= codes@.len(),
                        self.codes() == codes@.map_values(|c: String| c@),
                        forall|j: int| 0 <= j < i ==> codes@[j]@ != code@,
                    decreases codes@.len() - i,
                {
                    if codes[i] == *code {
                        assert(self.codes()[i as int] == code@);
                        return true;
                    }
                    i = i + 1;
                }
                proof {
                    if self.codes().contains(code@) {
                        let k = choose|k: int| 0 <= k < self.codes().len() && self.codes()[k] == code@;
                        assert(codes@[k]@ == code@);
                    }
                }
                false
            },
        }
    }
}

} // verus!
