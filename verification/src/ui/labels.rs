//! Labels shown while the pointer rests on a pad.

use std::collections::BTreeMap;

use vstd::prelude::*;

use crate::pad::{row_major, Pad};
use crate::role::PadRole;
use crate::text::{decimal, decimal_text};
use crate::DeviceSpec;

verus! {

/// The labels after labelling a run of pads in turn, later entries winning.
pub open spec fn labelled_all(labels: Map<Pad, Seq<char>>, entries: Seq<(Pad, &str)>) -> Map<Pad, Seq<char>>
    decreases entries.len(),
{
    if entries.len() == 0 {
        labels
    } else {
        labelled_all(labels, entries.drop_last()).insert(entries.last().0, entries.last().1@)
    }
}

/// The label the device itself gives a pad: the printing beside a button, or for a grid pad its
/// column and row counted from the top left of the 8x8 grid, which starts a row below the top.
pub open spec fn default_label<S: DeviceSpec>(pad: Pad) -> Option<Seq<char>> {
    match S::printing(pad) {
        Some(printed) => Some(printed),
        None => if S::role_of(pad) == PadRole::Grid {
            Some("Grid "@ + decimal(pad.x as nat) + ","@ + decimal((pad.y - 1) as nat))
        } else {
            None
        },
    }
}

/// The labels a device gives its surface.
pub open spec fn default_labels<S: DeviceSpec>() -> Map<Pad, Seq<char>> {
    Map::new(
        |pad: Pad| pad.x < S::width() && pad.y < S::height() && default_label::<S>(pad) is Some,
        |pad: Pad| default_label::<S>(pad).unwrap(),
    )
}

/// The key a pad's label is filed under: its row, then its column, so the keys run in row-major
/// order.
pub open spec fn pad_key(pad: Pad) -> u16 {
    (pad.y * 256 + pad.x) as u16
}

/// The pad a key files, the inverse of [`pad_key`].
pub open spec fn key_pad(key: u16) -> Pad {
    Pad { x: (key % 256) as u8, y: (key / 256) as u8 }
}

/// The labels a map from keys to text gives the pads.
pub open spec fn keyed_labels(entries: Map<u16, String>) -> Map<Pad, Seq<char>> {
    Map::new(|pad: Pad| entries.contains_key(pad_key(pad)), |pad: Pad| entries[pad_key(pad)]@)
}

/// Every pad has its own key, and every key files exactly one pad.
pub proof fn lemma_keys_match_pads(pad: Pad, other: Pad, key: u16)
    ensures
        pad_key(pad) == pad_key(other) ==> pad == other,
        key_pad(pad_key(pad)) == pad,
        pad_key(key_pad(key)) == key,
{
}

/// Filing a label under a pad's key labels that pad.
proof fn lemma_keyed_insert(entries: Map<u16, String>, pad: Pad, label: String)
    ensures
        keyed_labels(entries.insert(pad_key(pad), label)) == keyed_labels(entries).insert(pad, label@),
{
    assert forall|other: Pad| #[trigger] keyed_labels(entries.insert(pad_key(pad), label)).contains_key(other)
        == keyed_labels(entries).insert(pad, label@).contains_key(other) by {
        lemma_keys_match_pads(pad, other, 0);
    }
    assert(keyed_labels(entries.insert(pad_key(pad), label)) =~= keyed_labels(entries).insert(pad, label@));
}

/// Taking out a pad's key takes the label off that pad.
proof fn lemma_keyed_remove(entries: Map<u16, String>, pad: Pad)
    ensures
        keyed_labels(entries.remove(pad_key(pad))) == keyed_labels(entries).remove(pad),
{
    assert forall|other: Pad| #[trigger] keyed_labels(entries.remove(pad_key(pad))).contains_key(other)
        == keyed_labels(entries).remove(pad).contains_key(other) by {
        lemma_keys_match_pads(pad, other, 0);
    }
    assert(keyed_labels(entries.remove(pad_key(pad))) =~= keyed_labels(entries).remove(pad));
}

/// Laying one map of keys over another lays their labels over each other.
proof fn lemma_keyed_union(below: Map<u16, String>, above: Map<u16, String>)
    ensures
        keyed_labels(below.union_prefer_right(above)) == keyed_labels(below).union_prefer_right(
            keyed_labels(above),
        ),
{
    assert(keyed_labels(below.union_prefer_right(above)) =~= keyed_labels(below).union_prefer_right(
        keyed_labels(above),
    ));
}

/// As many pads are labelled as there are keys.
proof fn lemma_keyed_len(entries: Map<u16, String>)
    requires
        entries.dom().finite(),
    ensures
        keyed_labels(entries).dom().finite(),
        keyed_labels(entries).len() == entries.len(),
{
    let f = |key: u16| key_pad(key);
    assert(vstd::relations::injective_on(f, entries.dom())) by {
        assert forall|a: u16, b: u16| entries.dom().contains(a) && entries.dom().contains(b) && #[trigger] f(a)
            == #[trigger] f(b) implies a == b by {
            lemma_keys_match_pads(key_pad(a), key_pad(b), a);
            lemma_keys_match_pads(key_pad(b), key_pad(a), b);
        }
    }
    assert(entries.dom().map(f) =~= keyed_labels(entries).dom()) by {
        assert forall|pad: Pad| #[trigger] keyed_labels(entries).dom().contains(pad) implies entries.dom().map(
            f,
        ).contains(pad) by {
            lemma_keys_match_pads(pad, pad, 0);
            assert(f(pad_key(pad)) == pad);
        }
        assert forall|pad: Pad| #[trigger] entries.dom().map(f).contains(pad) implies keyed_labels(
            entries,
        ).dom().contains(pad) by {
            let key = choose|key: u16| entries.dom().contains(key) && f(key) == pad;
            lemma_keys_match_pads(pad, pad, key);
        }
    }
    vstd::set_lib::lemma_map_size(entries.dom(), keyed_labels(entries).dom(), f);
}

/// The key a pad's label is filed under.
fn key_of(pad: Pad) -> (key: u16)
    ensures
        key == pad_key(pad),
{
    (pad.y as u16) * 256 + (pad.x as u16)
}

/// A label with the number a pad sends written after it: `Up  (91)`.
pub open spec fn numbered(label: Seq<char>, number: u8) -> Seq<char> {
    label + "  ("@ + decimal(number as nat) + ")"@
}

/// Labels with the number each labelled pad of a device's surface sends written after them; pads
/// off the surface, and those that send nothing, keep their labels as they are.
pub open spec fn numbered_labels<S: DeviceSpec>(labels: Map<Pad, Seq<char>>) -> Map<Pad, Seq<char>> {
    Map::new(
        |pad: Pad| labels.contains_key(pad),
        |pad: Pad| if pad.x < S::width() && pad.y < S::height() && S::midi_number(pad) is Some {
            numbered(labels[pad], S::midi_number(pad).unwrap())
        } else {
            labels[pad]
        },
    )
}

/// Labels shown while the pointer rests on a pad.
///
/// Build a set and lay changes over it, so an application can start from what the device says and
/// replace only the pads it has bound.
#[derive(Debug, Clone, PartialEq, Eq)]
pub struct Labels {
    entries: BTreeMap<u16, String>,
}

impl View for Labels {
    type V = Map<Pad, Seq<char>>;

    closed spec fn view(&self) -> Map<Pad, Seq<char>> {
        keyed_labels(self.entries@)
    }
}

impl Labels {
    /// No labels, so nothing appears on hover.
    pub fn none() -> (labels: Self)
        ensures
            labels@ == Map::<Pad, Seq<char>>::empty(),
    {
        let labels = Self { entries: BTreeMap::new() };
        assert(labels@ =~= Map::<Pad, Seq<char>>::empty());
        labels
    }

    /// What the device itself says: the printing beside each button, and coordinates for the grid.
    pub fn defaults<S: DeviceSpec>() -> (labels: Self)
        requires
            forall|pad: Pad| #[trigger] S::role_of(pad) == PadRole::Grid ==> pad.y > 0,
        ensures
            labels@ == default_labels::<S>(),
    {
        proof {
            S::lemma_size();
        }
        let pads = Pad::all(S::WIDTH, S::HEIGHT);
        let mut labels = Self::none();
        let mut k: usize = 0;
        while k < pads.len()
            invariant
                k <= pads.len(),
                pads@ == row_major(S::WIDTH, S::HEIGHT),
                forall|pad: Pad| #[trigger] S::role_of(pad) == PadRole::Grid ==> pad.y > 0,
                labels@ == defaults_over::<S>(pads@.take(k as int)),
            decreases pads.len() - k,
        {
            let pad = pads[k];
            let label = match S::printed_name(pad) {
                Some(printed) => Some(printed.to_owned()),
                None => if S::role(pad) == PadRole::Grid {
                    let mut text = String::from_str("Grid ");
                    text.append(decimal_text(pad.x).as_str());
                    text.append(",");
                    text.append(decimal_text(pad.y - 1).as_str());
                    Some(text)
                } else {
                    None
                },
            };
            assert(pads@.take(k + 1).drop_last() =~= pads@.take(k as int));
            if let Some(label) = label {
                labels = labels.with(pad, label.as_str());
            }
            k += 1;
        }
        proof {
            assert(pads@.take(k as int) =~= pads@);
            lemma_defaults_over::<S>(pads@);
            assert forall|pad: Pad| #[trigger] pads@.contains(pad) <==> pad.x < S::WIDTH && pad.y < S::HEIGHT by {
                if pad.x < S::WIDTH && pad.y < S::HEIGHT {
                    crate::ui::layout::lemma_row_major_position(S::WIDTH, S::HEIGHT, pad);
                    assert(pads@[pad.y * S::WIDTH + pad.x] == pad);
                }
                if pads@.contains(pad) {
                    let j = choose|j: int| 0 <= j < pads@.len() && #[trigger] pads@[j] == pad;
                    lemma_row_major_bounds(S::WIDTH, S::HEIGHT, j);
                }
            }
            assert(labels@ =~= default_labels::<S>());
        }
        labels
    }

    /// Labels one pad, replacing any label already there.
    pub fn with(self, pad: Pad, label: &str) -> (labels: Self)
        ensures
            labels@ == self@.insert(pad, label@),
    {
        let mut entries = self.entries;
        let ghost before = entries@;
        entries.insert(key_of(pad), label.to_owned());
        proof {
            lemma_keyed_insert(before, pad, entries@[pad_key(pad)]);
        }
        Self { entries }
    }

    /// Labels several pads in turn, replacing any labels already there; a later entry for a pad wins.
    pub fn with_all(self, labels: &[(Pad, &str)]) -> (result: Self)
        ensures
            result@ == labelled_all(self@, labels@),
    {
        let ghost start = self@;
        let mut result = self;
        let mut i: usize = 0;
        while i < labels.len()
            invariant
                i <= labels.len(),
                result@ == labelled_all(start, labels@.take(i as int)),
            decreases labels.len() - i,
        {
            let (pad, label) = labels[i];
            result = result.with(pad, label);
            assert(labels@.take(i + 1).drop_last() =~= labels@.take(i as int));
            i += 1;
        }
        assert(labels@.take(labels.len() as int) =~= labels@);
        result
    }

    /// Takes the label off one pad.
    pub fn without(self, pad: Pad) -> (labels: Self)
        ensures
            labels@ == self@.remove(pad),
    {
        let mut entries = self.entries;
        let ghost before = entries@;
        let key = key_of(pad);
        entries.remove(&key);
        proof {
            lemma_keyed_remove(before, pad);
        }
        Self { entries }
    }

    /// Lays another set over this one, the other set's labels winning.
    #[verifier::spinoff_prover]
    pub fn overlay(self, other: Self) -> (labels: Self)
        ensures
            labels@ == self@.union_prefer_right(other@),
    {
        let mut entries = self.entries;
        let ghost start = entries@;
        let ghost theirs = other.entries@;
        let ghost items = vstd::std_specs::iter::IteratorSpec::remaining(
            &vstd::std_specs::btree::spec_btree_map_iter(&other.entries),
        );
        let ghost mut done: int = 0;
        for pair in it: other.entries.iter()
            invariant
                theirs == other.entries@,
                it.seq() == items,
                done == it.index(),
                items.len() == theirs.dom().len(),
                forall|j: int| 0 <= j < items.len() ==> theirs.contains_key(*#[trigger] items[j].0)
                    && theirs[*items[j].0] == *items[j].1,
                forall|key: u16| #[trigger] theirs.contains_key(key) ==> items.contains((&key, &theirs[key])),
                items.no_duplicates(),
                forall|key: u16| #[trigger] entries@.contains_key(key) <==> start.contains_key(key) || exists|j: int|
                    0 <= j < done && *#[trigger] items[j].0 == key,
                forall|j: int| 0 <= j < done ==> #[trigger] entries@.contains_key(*items[j].0)
                    && entries@[*items[j].0] == *items[j].1,
                forall|key: u16| #[trigger] entries@.contains_key(key) && !(exists|j: int| 0 <= j < done
                    && *#[trigger] items[j].0 == key) ==> entries@[key] == start[key],
        {
            let (key, label) = pair;
            proof {
                assert forall|j: int| 0 <= j < done implies *#[trigger] items[j].0 != *key by {
                    if *items[j].0 == *key {
                        assert(items[j] == items[done]);
                    }
                }
            }
            let ghost before = entries@;
            entries.insert(*key, label.clone());
            proof {
                assert(items[done] == (key, label));
                assert forall|j: int| 0 <= j < done + 1 implies #[trigger] entries@.contains_key(*items[j].0)
                    && entries@[*items[j].0] == *items[j].1 by {
                    if j < done {
                        assert(before.contains_key(*items[j].0));
                    }
                }
                done = done + 1;
            }
        }
        assert(done == items.len());
        proof {
            assert forall|key: u16| #[trigger] theirs.contains_key(key) implies entries@.contains_key(key)
                && entries@[key] == theirs[key] by {
                assert(items.contains((&key, &theirs[key])));
                let j = choose|j: int| 0 <= j < items.len() && items[j] == (&key, &theirs[key]);
                assert(*items[j].0 == key);
                assert(*items[j].1 == theirs[key]);
                assert(entries@.contains_key(*items[j].0));
            }
            assert(entries@ =~= start.union_prefer_right(theirs));
            lemma_keyed_union(start, theirs);
        }
        Self { entries }
    }

    /// Writes after each label on the device's surface the number its pad sends, as in
    /// `Up  (91)`, so a player can see what a pad will report.
    pub fn with_numbers<S: DeviceSpec>(&self) -> (labels: Self)
        ensures
            labels@ == numbered_labels::<S>(self@),
    {
        proof {
            S::lemma_size();
        }
        let pads = Pad::all(S::WIDTH, S::HEIGHT);
        let mut result = Self { entries: self.entries.clone() };
        let mut k: usize = 0;
        while k < pads.len()
            invariant
                k <= pads.len(),
                pads@ == row_major(S::width(), S::height()),
                forall|pad: Pad| #[trigger] result@.contains_key(pad) == self@.contains_key(pad),
                forall|pad: Pad| #[trigger] self@.contains_key(pad) ==> result@[pad] == if pads@.take(k as int).contains(
                    pad,
                ) && S::midi_number(pad) is Some {
                    numbered(self@[pad], S::midi_number(pad).unwrap())
                } else {
                    self@[pad]
                },
            decreases pads.len() - k,
        {
            let pad = pads[k];
            let ghost before = result@;
            proof {
                assert forall|other: Pad| #[trigger] pads@.take(k + 1).contains(other) <==> pads@.take(k as int).contains(
                    other,
                ) || other == pad by {
                    if pads@.take(k + 1).contains(other) {
                        let j = choose|j: int| 0 <= j < k + 1 && #[trigger] pads@.take(k + 1)[j] == other;
                        if j < k {
                            assert(pads@.take(k as int)[j] == other);
                        }
                    }
                    if pads@.take(k as int).contains(other) {
                        let j = choose|j: int| 0 <= j < k && #[trigger] pads@.take(k as int)[j] == other;
                        assert(pads@.take(k + 1)[j] == other);
                    }
                    if other == pad {
                        assert(pads@.take(k + 1)[k as int] == other);
                    }
                }
            }
            if let (Some(name), Some(number)) = (self.get(pad), S::pad_to_midi(pad)) {
                let mut text = String::from_str(name);
                text.append("  (");
                text.append(decimal_text(number).as_str());
                text.append(")");
                result = result.with(pad, text.as_str());
            }
            k += 1;
        }
        proof {
            assert(pads@.take(k as int) =~= pads@);
            assert forall|pad: Pad| #[trigger] pads@.contains(pad) <==> pad.x < S::width() && pad.y < S::height() by {
                if pad.x < S::width() && pad.y < S::height() {
                    crate::ui::layout::lemma_row_major_position(S::width(), S::height(), pad);
                    assert(pads@[pad.y * S::width() + pad.x] == pad);
                }
                if pads@.contains(pad) {
                    let j = choose|j: int| 0 <= j < pads@.len() && #[trigger] pads@[j] == pad;
                    lemma_row_major_bounds(S::width(), S::height(), j);
                }
            }
            assert(result@ =~= numbered_labels::<S>(self@));
        }
        result
    }

    /// The label on a pad, if it has one.
    pub fn get(&self, pad: Pad) -> (label: Option<&str>)
        ensures
            match label {
                Some(label) => self@.contains_key(pad) && self@[pad] == label@,
                None => !self@.contains_key(pad),
            },
    {
        let key = key_of(pad);
        match self.entries.get(&key) {
            Some(text) => Some(text.as_str()),
            None => None,
        }
    }

    /// How many pads carry a label.
    pub fn len(&self) -> (count: usize)
        ensures
            count == self@.len(),
    {
        proof {
            lemma_keyed_len(self.entries@);
        }
        self.entries.len()
    }

    /// Whether no pad carries a label.
    pub fn is_empty(&self) -> (empty: bool)
        ensures
            empty == (self@.len() == 0),
    {
        self.len() == 0
    }
}

/// The labels a run of pads gets from the device, in order.
pub open spec fn defaults_over<S: DeviceSpec>(pads: Seq<Pad>) -> Map<Pad, Seq<char>>
    decreases pads.len(),
{
    if pads.len() == 0 {
        Map::empty()
    } else {
        let before = defaults_over::<S>(pads.drop_last());
        match default_label::<S>(pads.last()) {
            Some(label) => before.insert(pads.last(), label),
            None => before,
        }
    }
}

/// The labels a run of pads gets are those of the pads in it that the device labels.
pub proof fn lemma_defaults_over<S: DeviceSpec>(pads: Seq<Pad>)
    ensures
        forall|pad: Pad| #[trigger] defaults_over::<S>(pads).contains_key(pad) <==> pads.contains(pad)
            && default_label::<S>(pad) is Some,
        forall|pad: Pad| #[trigger] defaults_over::<S>(pads).contains_key(pad) ==> defaults_over::<S>(pads)[pad]
            == default_label::<S>(pad).unwrap(),
    decreases pads.len(),
{
    if pads.len() > 0 {
        let rest = pads.drop_last();
        lemma_defaults_over::<S>(rest);
        assert forall|pad: Pad| #[trigger] pads.contains(pad) <==> rest.contains(pad) || pad == pads.last() by {
            if pads.contains(pad) {
                let j = choose|j: int| 0 <= j < pads.len() && #[trigger] pads[j] == pad;
                if j < rest.len() {
                    assert(rest[j] == pad);
                }
            }
            if rest.contains(pad) {
                let j = choose|j: int| 0 <= j < rest.len() && #[trigger] rest[j] == pad;
                assert(pads[j] == pad);
            }
            if pad == pads.last() {
                assert(pads[pads.len() - 1] == pad);
            }
        }
        assert forall|pad: Pad| #[trigger] defaults_over::<S>(pads).contains_key(pad) <==> pads.contains(pad)
            && default_label::<S>(pad) is Some by {
            assert(pads.contains(pad) <==> rest.contains(pad) || pad == pads.last());
            assert(defaults_over::<S>(rest).contains_key(pad) <==> rest.contains(pad) && default_label::<S>(
                pad,
            ) is Some);
        }
        assert forall|pad: Pad| #[trigger] defaults_over::<S>(pads).contains_key(pad) implies defaults_over::<S>(
            pads,
        )[pad] == default_label::<S>(pad).unwrap() by {
            if pad != pads.last() {
                assert(defaults_over::<S>(rest).contains_key(pad));
            }
        }
    }
}

/// Distinct row-major positions hold distinct pads.
pub proof fn lemma_row_major_distinct(width: u8, height: u8, i: int, j: int)
    requires
        0 <= i < j < width * height,
    ensures
        row_major(width, height)[i] != row_major(width, height)[j],
{
    let w = width as int;
    assert(w > 0) by (nonlinear_arith)
        requires
            0 <= i < j < w * height,
            height >= 0,
    ;
    vstd::arithmetic::div_mod::lemma_fundamental_div_mod(i, w);
    vstd::arithmetic::div_mod::lemma_fundamental_div_mod(j, w);
    assert(i / w < 256 && j / w < 256) by {
        vstd::arithmetic::div_mod::lemma_div_is_ordered(i, w * height, w);
        vstd::arithmetic::div_mod::lemma_div_is_ordered(j, w * height, w);
        vstd::arithmetic::div_mod::lemma_div_multiples_vanish(height as int, w);
    }
}

/// Every pad of a row-major list lies on the surface.
pub proof fn lemma_row_major_bounds(width: u8, height: u8, i: int)
    requires
        0 <= i < width * height,
    ensures
        row_major(width, height)[i].x < width,
        row_major(width, height)[i].y < height,
{
    let (w, h) = (width as int, height as int);
    assert(w > 0) by (nonlinear_arith)
        requires
            0 <= i < w * h,
            h >= 0,
    ;
    vstd::arithmetic::div_mod::lemma_fundamental_div_mod(i, w);
    let (q, r) = (i / w, i % w);
    assert(q < h) by (nonlinear_arith)
        requires
            i == w * q + r,
            0 <= r < w,
            0 <= i < w * h,
            w > 0,
    ;
    assert(q >= 0) by (nonlinear_arith)
        requires
            i == w * q + r,
            0 <= r < w,
            0 <= i,
            w > 0,
    ;
}

/// Later layers win: the last label given to a pad is the one it carries, and laying a set over
/// another keeps the other's labels wherever the new set has none.
pub proof fn lemma_later_layers_win(
    labels: Map<Pad, Seq<char>>,
    layer: Map<Pad, Seq<char>>,
    pad: Pad,
    first: Seq<char>,
    second: Seq<char>,
    other: Pad,
)
    ensures
        labels.insert(pad, first).insert(pad, second) == labels.insert(pad, second),
        layer.contains_key(other) ==> labels.union_prefer_right(layer)[other] == layer[other],
        !layer.contains_key(other) ==> labels.union_prefer_right(layer).contains_key(other)
            == labels.contains_key(other),
        !layer.contains_key(other) && labels.contains_key(other) ==> labels.union_prefer_right(layer)[other]
            == labels[other],
{
    assert(labels.insert(pad, first).insert(pad, second) =~= labels.insert(pad, second));
}

} // verus!
