use vstd::prelude::*;

verus! {

/// One roster entry: a 4-character ICAO airport identifier (as bytes,
/// case-sensitive as transmitted) and the LED index that shows it.
#[derive(Clone, Debug)]
pub struct RosterEntry {
    /// ICAO identifier bytes, for example `KSFO`.
    pub icao: Vec<u8>,
    /// LED index on the microcontroller; zero is reserved by the framing.
    pub led: u16,
}

/// Whether a list of entries is a valid roster: every LED index nonzero,
/// airports distinct and LED indices distinct.
pub open spec fn roster_wf(entries: Seq<RosterEntry>) -> bool {
    &&& forall|i: int| 0 <= i < entries.len() ==> entries[i].led >= 1
    &&& forall|i: int, j: int|
        0 <= i < j < entries.len() ==> entries[i].icao@ != entries[j].icao@ && entries[i].led
            != entries[j].led
}

/// The static mapping from airports to LED indices, fixed at startup and
/// immutable for the process lifetime. Order is kept as given; it only
/// matters for stable logging.
pub struct Roster {
    entries: Vec<RosterEntry>,
}

/// Whether two byte strings are equal.
fn bytes_eq(a: &Vec<u8>, b: &Vec<u8>) -> (r: bool)
    ensures
        r <==> a@ == b@,
{
    if a.len() != b.len() {
        return false;
    }
    let n = a.len();
    for i in 0..n
        invariant
            n == a@.len(),
            n == b@.len(),
            forall|k: int| 0 <= k < i ==> a@[k] == b@[k],
    {
        if a[i] != b[i] {
            return false;
        }
    }
    proof {
        assert(a@ =~= b@);
    }
    true
}

impl Roster {
    /// The entries as given at construction.
    pub fn entries(&self) -> (r: &Vec<RosterEntry>)
        ensures
            r@ == self@,
    {
        &self.entries
    }

    /// View: the sequence of entries.
    pub closed spec fn view(&self) -> Seq<RosterEntry> {
        self.entries@
    }

    /// A roster always satisfies the roster invariant.
    pub open spec fn wf(&self) -> bool {
        roster_wf(self@)
    }

    /// Builds a roster from a list of entries, checking the roster
    /// invariant: `Some` exactly when every LED index is nonzero and no
    /// airport or LED index repeats, and then with the entries unchanged.
    pub fn new(entries: Vec<RosterEntry>) -> (r: Option<Roster>)
        ensures
            r is Some <==> roster_wf(entries@),
            r matches Some(roster) ==> roster@ == entries@ && roster.wf(),
    {
        let n = entries.len();
        for i in 0..n
            invariant
                n == entries@.len(),
                forall|k: int| 0 <= k < i ==> entries@[k].led >= 1,
                forall|k: int, l: int|
                    0 <= k < l < entries@.len() && k < i ==> entries@[k].icao@
                        != entries@[l].icao@ && entries@[k].led != entries@[l].led,
        {
            if entries[i].led == 0 {
                return None;
            }
            let mut j = i + 1;
            while j < n
                invariant
                    i < j <= n,
                    n == entries@.len(),
                    forall|l: int|
                        i < l < j ==> entries@[i as int].icao@ != entries@[l].icao@
                            && entries@[i as int].led != entries@[l].led,
                decreases n - j,
            {
                if bytes_eq(&entries[i].icao, &entries[j].icao) {
                    return None;
                }
                if entries[i].led == entries[j].led {
                    return None;
                }
                j = j + 1;
            }
        }
        Some(Roster { entries })
    }
}

} // verus!
