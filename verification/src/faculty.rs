//! Faculty directory extraction from timetable slots.
//!
//! The HTTP front-end turns a fetched timetable into a directory of faculty
//! members keyed by cabin: a slot with a visible faculty name contributes its
//! room as the cabin, or a placeholder derived from the name when the room is
//! blank, and each cabin appears once, under the name of the first slot that
//! introduced it.

use vstd::prelude::*;
use vstd::string::StringExecFns;

verus! {

/// One timetable slot, reduced to what the directory reads.
pub struct Slot {
    pub faculty: String,
    pub room_no: String,
}

/// One directory entry.
pub struct Faculty {
    pub cabin_id: String,
    pub name: String,
}

/// An ASCII whitespace character, the kind timetable cells are padded with.
pub open spec fn is_blank_char(c: char) -> bool {
    c == ' ' || c == '\t' || c == '\n' || c == '\r'
}

/// The text is empty or all padding.
pub open spec fn blank(s: Seq<char>) -> bool {
    forall|i: int| 0 <= i < s.len() ==> is_blank_char(s[i])
}

/// Spaces replaced by dashes.
pub open spec fn dashed(s: Seq<char>) -> Seq<char> {
    s.map_values(
        |c: char|
            if c == ' ' {
                '-'
            } else {
                c
            },
    )
}

/// A slot contributes to the directory when its faculty name is visible.
pub open spec fn eligible(slot: Slot) -> bool {
    !blank(slot.faculty@)
}

/// The cabin a slot files its faculty under: the room, or a placeholder
/// derived from the dashed faculty name when the room is blank.
pub open spec fn cabin_of(slot: Slot) -> Seq<char> {
    if !blank(slot.room_no@) {
        slot.room_no@
    } else {
        "UNKNOWN-"@ + dashed(slot.faculty@)
    }
}

/// Whether `s` is empty or all padding.
fn is_blank(s: &str) -> (r: bool)
    ensures
        r == blank(s@),
{
    let n = s.unicode_len();
    let mut i: usize = 0;
    while i < n
        invariant
            n == s@.len(),
            i <= n,
            forall|k: int| 0 <= k < i ==> is_blank_char(s@[k]),
        decreases n - i,
    {
        let c = s.get_char(i);
        if !(c == ' ' || c == '\t' || c == '\n' || c == '\r') {
            return false;
        }
        i += 1;
    }
    true
}

/// Relies on std's `String::push`: appends exactly one character.
#[verifier::external_body]
fn push_char(s: &mut String, c: char)
    ensures
        final(s)@ == old(s)@.push(c),
{
    s.push(c);
}

/// A copy of `s` with spaces replaced by dashes.
fn dash_spaces(s: &str) -> (r: String)
    ensures
        r@ == dashed(s@),
{
    let n = s.unicode_len();
    let mut out = String::new();
    let mut i: usize = 0;
    while i < n
        invariant
            n == s@.len(),
            i <= n,
            out@ == dashed(s@.take(i as int)),
        decreases n - i,
    {
        let c = s.get_char(i);
        if c == ' ' {
            push_char(&mut out, '-');
        } else {
            push_char(&mut out, c);
        }
        proof {
            assert(out@ =~= dashed(s@.take(i + 1)));
        }
        i += 1;
    }
    proof {
        assert(s@.take(n as int) =~= s@);
    }
    out
}

/// The directory holds an entry filed under `cabin`.
pub open spec fn has_cabin(dir: Seq<Faculty>, cabin: Seq<char>) -> bool {
    exists|k: int| 0 <= k < dir.len() && (#[trigger] dir[k]).cabin_id@ == cabin
}

/// The entry comes from the first eligible slot filing at its cabin: it
/// carries that slot's faculty name, and no earlier eligible slot files
/// there.
pub open spec fn sourced(slots: Seq<Slot>, entry: Faculty) -> bool {
    exists|i: int|
        0 <= i < slots.len() && eligible(#[trigger] slots[i]) && cabin_of(slots[i])
            == entry.cabin_id@ && slots[i].faculty@ == entry.name@ && (forall|j: int|
            0 <= j < i ==> !(eligible(#[trigger] slots[j]) && cabin_of(slots[j])
                == entry.cabin_id@))
}

/// Whether a cabin is already in the directory.
fn contains_cabin(v: &Vec<Faculty>, cabin: &String) -> (r: bool)
    ensures
        r == has_cabin(v@, cabin@),
{
    let mut k: usize = 0;
    while k < v.len()
        invariant
            k <= v@.len(),
            forall|j: int| 0 <= j < k ==> (#[trigger] v@[j]).cabin_id@ != cabin@,
        decreases v@.len() - k,
    {
        if v[k].cabin_id == *cabin {
            return true;
        }
        k += 1;
    }
    false
}

/// The faculty directory of a list of slots: one entry per distinct cabin of
/// the eligible slots, each under the faculty name of the first slot that
/// filed there.
pub fn collect_faculty(slots: &Vec<Slot>) -> (r: Vec<Faculty>)
    ensures
        forall|i: int, j: int| 0 <= i < j < r@.len() ==> r@[i].cabin_id@ != r@[j].cabin_id@,
        forall|i: int|
            0 <= i < slots@.len() && eligible(#[trigger] slots@[i]) ==> has_cabin(
                r@,
                cabin_of(slots@[i]),
            ),
        forall|k: int| 0 <= k < r@.len() ==> sourced(slots@, #[trigger] r@[k]),
{
    let mut out: Vec<Faculty> = Vec::new();
    let mut i: usize = 0;
    while i < slots.len()
        invariant
            i <= slots@.len(),
            forall|a: int, b: int| 0 <= a < b < out@.len() ==> out@[a].cabin_id@
                != out@[b].cabin_id@,
            forall|a: int|
                0 <= a < i && eligible(#[trigger] slots@[a]) ==> has_cabin(
                    out@,
                    cabin_of(slots@[a]),
                ),
            forall|k: int| 0 <= k < out@.len() ==> sourced(slots@, #[trigger] out@[k]),
        decreases slots@.len() - i,
    {
        let ghost prev = out@;
        let slot = &slots[i];
        if !is_blank(slot.faculty.as_str()) {
            let cabin: String = if !is_blank(slot.room_no.as_str()) {
                slot.room_no.clone()
            } else {
                let mut c = String::from_str("UNKNOWN-");
                let d = dash_spaces(slot.faculty.as_str());
                c.append(d.as_str());
                c
            };
            proof {
                assert(cabin@ == cabin_of(slots@[i as int]));
            }
            let ghost cab = cabin@;
            if !contains_cabin(&out, &cabin) {
                out.push(Faculty { cabin_id: cabin, name: slot.faculty.clone() });
                proof {
                    assert(out@[prev.len() as int].cabin_id@ == cab);
                    assert(out@[prev.len() as int].name@ == slots@[i as int].faculty@);
                    // no earlier eligible slot files here, else the cabin
                    // would already be in the directory
                    assert forall|j: int| 0 <= j < i implies !(eligible(#[trigger] slots@[j])
                        && cabin_of(slots@[j]) == cab) by {
                        if eligible(slots@[j]) && cabin_of(slots@[j]) == cab {
                            assert(has_cabin(prev, cab));
                        }
                    }
                    assert(sourced(slots@, out@[prev.len() as int]));
                }
            }
            proof {
                assert(has_cabin(out@, cabin_of(slots@[i as int])));
            }
        }
        proof {
            assert(prev.len() <= out@.len());
            assert(forall|j: int| 0 <= j < prev.len() ==> out@[j] == prev[j]);
            assert forall|a: int, b: int| 0 <= a < b < out@.len() implies out@[a].cabin_id@
                != out@[b].cabin_id@ by {
                if b < prev.len() {
                } else if out@.len() > prev.len() && b == prev.len() {
                    assert(out@[a] == prev[a]);
                }
            }
            assert forall|a: int|
                0 <= a < i + 1 && eligible(#[trigger] slots@[a]) implies has_cabin(
                out@,
                cabin_of(slots@[a]),
            ) by {
                if a < i {
                    let k0 = choose|k: int|
                        0 <= k < prev.len() && (#[trigger] prev[k]).cabin_id@ == cabin_of(
                            slots@[a],
                        );
                    assert(out@[k0].cabin_id@ == cabin_of(slots@[a]));
                }
            }
        }
        i += 1;
    }
    out
}

} // verus!
