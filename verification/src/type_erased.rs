//! Buffers without their types: the raw bytes of each array of a task, kept
//! under the name of the array's item type.

use vstd::prelude::*;

verus! {

/// The bytes of an array of items that all have the same size.
#[derive(Debug)]
pub struct ArrayBytes {
    pub item_size: usize,
    pub bytes: Vec<u8>,
}

/// The value of an array of bytes.
pub struct ArrayBytesView {
    pub item_size: nat,
    pub bytes: Seq<u8>,
}

impl View for ArrayBytes {
    type V = ArrayBytesView;

    open spec fn view(&self) -> ArrayBytesView {
        ArrayBytesView { item_size: self.item_size as nat, bytes: self.bytes@ }
    }
}

/// The bytes of the first `count` items, one after the other.
pub open spec fn packed(items: Seq<Seq<u8>>, count: nat) -> Seq<u8>
    decreases count,
{
    if count == 0 || count > items.len() {
        seq![]
    } else {
        packed(items, (count - 1) as nat) + items[count - 1]
    }
}

/// Whether every item has exactly `item_size` bytes.
pub open spec fn all_of_size(items: Seq<Seq<u8>>, item_size: nat) -> bool {
    forall|i: int| 0 <= i < items.len() ==> (#[trigger] items[i]).len() == item_size
}

/// The item at position `index` of an array of bytes.
pub open spec fn item_at(bytes: Seq<u8>, item_size: nat, index: int) -> Seq<u8> {
    bytes.subrange(index * item_size, (index + 1) * item_size)
}

/// The items of an array of bytes whose length is a multiple of the item
/// size.
pub open spec fn unpacked(array: ArrayBytesView) -> Seq<Seq<u8>> {
    Seq::new(
        (array.bytes.len() / array.item_size) as nat,
        |i: int| item_at(array.bytes, array.item_size, i),
    )
}

/// Whether an array of bytes can be split into items.
pub open spec fn splits(array: ArrayBytesView) -> bool {
    array.item_size > 0 && array.bytes.len() % array.item_size == 0
}

/// Items of one size take up their number times that size.
pub proof fn lemma_packed_len(items: Seq<Seq<u8>>, item_size: nat, count: nat)
    requires
        all_of_size(items, item_size),
        count <= items.len(),
    ensures
        packed(items, count).len() == count * item_size,
    decreases count,
{
    if count > 0 {
        lemma_packed_len(items, item_size, (count - 1) as nat);
        assert((count - 1) * item_size + item_size == count * item_size) by (nonlinear_arith);
    } else {
        assert(0 * item_size == 0) by (nonlinear_arith);
    }
}

/// Each item stands in the packed bytes at its position times the size.
pub proof fn lemma_packed_item(items: Seq<Seq<u8>>, item_size: nat, count: nat, index: int)
    requires
        all_of_size(items, item_size),
        0 <= index < count <= items.len(),
    ensures
        item_at(packed(items, count), item_size, index) == items[index],
    decreases count,
{
    lemma_packed_len(items, item_size, count);
    assert((count - 1) * item_size + item_size == count * item_size) by (nonlinear_arith);
    assert(index * item_size + item_size == (index + 1) * item_size) by (nonlinear_arith);
    if index < count - 1 {
        lemma_packed_item(items, item_size, (count - 1) as nat, index);
        assert((index + 1) * item_size <= (count - 1) * item_size) by (nonlinear_arith)
            requires
                index + 1 <= count - 1,
        ;
    }
}

/// Packing items of one size and unpacking the bytes gives the items back,
/// in their order and byte for byte.
pub proof fn lemma_unpack_pack(items: Seq<Seq<u8>>, item_size: nat)
    requires
        item_size > 0,
        all_of_size(items, item_size),
    ensures
        splits(ArrayBytesView { item_size, bytes: packed(items, items.len()) }),
        unpacked(ArrayBytesView { item_size, bytes: packed(items, items.len()) }) == items,
{
    let bytes = packed(items, items.len());
    let array = ArrayBytesView { item_size, bytes };
    lemma_packed_len(items, item_size, items.len());
    assert((items.len() * item_size) % item_size == 0 && (items.len() * item_size) / item_size
        == items.len()) by (nonlinear_arith)
        requires
            item_size > 0,
    ;
    assert forall|i: int| 0 <= i < items.len() implies unpacked(array)[i] == items[i] by {
        lemma_packed_item(items, item_size, items.len(), i);
    }
}

/// Round trip: items of one size that are packed and stored under one
/// name, then moved to another name and unpacked there, come back in the
/// same order and byte for byte.
pub proof fn lemma_round_trip(
    data: Map<Seq<char>, ArrayBytesView>,
    stored_as: Seq<char>,
    read_as: Seq<char>,
    items: Seq<Seq<u8>>,
    item_size: nat,
)
    requires
        item_size > 0,
        all_of_size(items, item_size),
    ensures
        ({
            let stored = data.insert(
                stored_as,
                ArrayBytesView { item_size, bytes: packed(items, items.len()) },
            );
            let moved = stored.remove(stored_as).insert(read_as, stored[stored_as]);
            moved.contains_key(read_as) && splits(moved[read_as]) && unpacked(moved[read_as])
                == items
        }),
{
    lemma_unpack_pack(items, item_size);
}

/// Packs items that all have `item_size` bytes into one array of bytes.
/// Returns `None` exactly when the size is zero or an item has another
/// size.
pub fn pack(items: &Vec<Vec<u8>>, item_size: usize) -> (array: Option<ArrayBytes>)
    ensures
        array is Some <==> item_size > 0 && all_of_size(
            Seq::new(items@.len(), |i: int| items@[i]@),
            item_size as nat,
        ),
        array matches Some(found) ==> found@ == (ArrayBytesView {
            item_size: item_size as nat,
            bytes: packed(Seq::new(items@.len(), |i: int| items@[i]@), items@.len()),
        }),
{
    let ghost views = Seq::new(items@.len(), |i: int| items@[i]@);
    if item_size == 0 {
        return None;
    }
    let mut bytes: Vec<u8> = Vec::new();
    let mut i: usize = 0;
    while i < items.len()
        invariant
            i <= items.len(),
            views == Seq::new(items@.len(), |i: int| items@[i]@),
            bytes@ == packed(views, i as nat),
            forall|k: int| 0 <= k < i ==> (#[trigger] views[k]).len() == item_size,
        decreases items.len() - i,
    {
        let item = &items[i];
        assert(views[i as int] == item@);
        if item.len() != item_size {
            return None;
        }
        let ghost before = bytes@;
        let mut j: usize = 0;
        while j < item.len()
            invariant
                j <= item.len(),
                bytes@ == before + item@.take(j as int),
            decreases item.len() - j,
        {
            bytes.push(item[j]);
            j = j + 1;
        }
        i = i + 1;
    }
    Some(ArrayBytes { item_size, bytes })
}

/// Splits an array of bytes into its items. Returns `None` exactly when
/// the item size is zero or does not divide the number of bytes.
pub fn unpack(array: &ArrayBytes) -> (items: Option<Vec<Vec<u8>>>)
    ensures
        items is Some <==> splits(array@),
        items matches Some(found) ==> Seq::new(found@.len(), |i: int| found@[i]@) == unpacked(
            array@,
        ),
{
    if array.item_size == 0 || array.bytes.len() % array.item_size != 0 {
        return None;
    }
    let size = array.item_size;
    let count = array.bytes.len() / size;
    assert(count * size == array.bytes.len()) by (nonlinear_arith)
        requires
            size > 0,
            array.bytes.len() % size == 0,
            count == array.bytes.len() / size,
    ;
    let mut items: Vec<Vec<u8>> = Vec::new();
    let mut i: usize = 0;
    while i < count
        invariant
            i <= count,
            size == array.item_size,
            size > 0,
            count * size == array.bytes.len(),
            items@.len() == i,
            forall|k: int|
                0 <= k < i ==> (#[trigger] items@[k])@ == item_at(array.bytes@, size as nat, k),
        decreases count - i,
    {
        assert(i * size + size == (i + 1) * size) by (nonlinear_arith);
        assert((i + 1) * size <= count * size) by (nonlinear_arith)
            requires
                i + 1 <= count,
        ;
        let start = i * size;
        let mut item: Vec<u8> = Vec::new();
        let mut j: usize = 0;
        while j < size
            invariant
                j <= size,
                start + size <= array.bytes.len(),
                item@ == array.bytes@.subrange(start as int, start + j),
            decreases size - j,
        {
            item.push(array.bytes[start + j]);
            j = j + 1;
        }
        items.push(item);
        i = i + 1;
    }
    Some(items)
}

/// One named array of a mapping.
#[derive(Debug)]
pub struct NamedArray {
    pub name: String,
    pub array: ArrayBytes,
}

/// The mapping that the first `count` named arrays make up; a later array
/// takes the place of an earlier one of the same name.
pub open spec fn mapping_of(entries: Seq<NamedArray>, count: nat) -> Map<
    Seq<char>,
    ArrayBytesView,
>
    decreases count,
{
    if count == 0 || count > entries.len() {
        Map::empty()
    } else {
        mapping_of(entries, (count - 1) as nat).insert(
            entries[count - 1].name@,
            entries[count - 1].array@,
        )
    }
}

/// A mapping from the names of item types to the bytes of their arrays.
#[derive(Debug)]
pub struct TypeErasedArrayData {
    entries: Vec<NamedArray>,
}

impl View for TypeErasedArrayData {
    type V = Map<Seq<char>, ArrayBytesView>;

    closed spec fn view(&self) -> Map<Seq<char>, ArrayBytesView> {
        mapping_of(self.entries@, self.entries@.len())
    }
}

/// Dropping the entries of one name from a list removes the name from the
/// mapping and leaves the rest.
proof fn lemma_without(
    entries: Seq<NamedArray>,
    kept: Seq<NamedArray>,
    keep: spec_fn(NamedArray) -> bool,
    name: Seq<char>,
    count: nat,
)
    requires
        count <= entries.len(),
        forall|entry: NamedArray| #[trigger] keep(entry) == (entry.name@ != name),
        kept == entries.take(count as int).filter(keep),
    ensures
        mapping_of(kept, kept.len()) == mapping_of(entries, count).remove(name),
    decreases count,
{
    if count > 0 {
        let shorter = entries.take(count - 1);
        let last = entries[count - 1];
        assert(entries.take(count as int) =~= shorter + seq![last]);
        lemma_filter_one(last, keep);
        lemma_without(entries, shorter.filter(keep), keep, name, (count - 1) as nat);
        if last.name@ != name {
            assert(kept.take(kept.len() - 1) =~= shorter.filter(keep));
            lemma_mapping_prefix(kept, shorter.filter(keep), (kept.len() - 1) as nat);
        }
    }
}

/// The mapping of the first entries depends on those entries alone.
proof fn lemma_mapping_prefix(entries: Seq<NamedArray>, prefix: Seq<NamedArray>, count: nat)
    requires
        count <= entries.len(),
        prefix == entries.take(count as int),
    ensures
        mapping_of(entries, count) == mapping_of(prefix, count),
    decreases count,
{
    if count > 0 {
        assert(prefix.take(count - 1) =~= entries.take(count - 1));
        lemma_mapping_prefix(entries, entries.take(count - 1), (count - 1) as nat);
        lemma_mapping_prefix(prefix, entries.take(count - 1), (count - 1) as nat);
    }
}

impl TypeErasedArrayData {
    /// A mapping without any array.
    pub fn new() -> (data: Self)
        ensures
            data@ == Map::<Seq<char>, ArrayBytesView>::empty(),
    {
        TypeErasedArrayData { entries: Vec::new() }
    }

    /// Puts an array under a name; an array that was there before is
    /// replaced.
    pub fn insert(&mut self, name: &str, array: ArrayBytes)
        ensures
            final(self)@ == old(self)@.insert(name@, array@),
    {
        let ghost before = self.entries@;
        self.entries.push(NamedArray { name: name.to_owned(), array });
        proof {
            assert(self.entries@.take(before.len() as int) =~= before);
            lemma_mapping_prefix(self.entries@, before, before.len());
        }
    }

    /// The array under a name.
    pub fn get(&self, name: &str) -> (array: Option<&ArrayBytes>)
        ensures
            match array {
                Some(found) => self@.contains_key(name@) && self@[name@] == found@,
                None => !self@.contains_key(name@),
            },
    {
        let mut i: usize = self.entries.len();
        while i > 0
            invariant
                i <= self.entries.len(),
                self@.contains_key(name@) == mapping_of(self.entries@, i as nat).contains_key(
                    name@,
                ),
                self@.contains_key(name@) ==> self@[name@] == mapping_of(
                    self.entries@,
                    i as nat,
                )[name@],
            decreases i,
        {
            if self.entries[i - 1].name.as_str().eq(name) {
                return Some(&self.entries[i - 1].array);
            }
            i = i - 1;
        }
        None
    }

    /// Takes the array under a name out of the mapping.
    pub fn remove(&mut self, name: &str) -> (array: Option<ArrayBytes>)
        ensures
            final(self)@ == old(self)@.remove(name@),
            match array {
                Some(found) => old(self)@.contains_key(name@) && old(self)@[name@] == found@,
                None => !old(self)@.contains_key(name@),
            },
    {
        let ghost given = self.entries@;
        let ghost keep = |entry: NamedArray| entry.name@ != name@;
        let ghost mut done: nat = 0;
        let mut found: Option<ArrayBytes> = None;
        let mut i: usize = 0;
        while i < self.entries.len()
            invariant
                done <= given.len(),
                keep == (|entry: NamedArray| entry.name@ != name@),
                self.entries@ == given.take(done as int).filter(keep) + given.skip(done as int),
                i == given.take(done as int).filter(keep).len(),
                match found {
                    Some(array) => mapping_of(given, done).contains_key(name@) && mapping_of(
                        given,
                        done,
                    )[name@] == array@,
                    None => !mapping_of(given, done).contains_key(name@),
                },
            decreases given.len() - done,
        {
            proof {
                assert(given.take(done as int + 1) =~= given.take(done as int) + seq![
                    given[done as int],
                ]);
                lemma_filter_one(given[done as int], keep);
            }
            if self.entries[i].name.as_str().eq(name) {
                let entry = self.entries.remove(i);
                found = Some(entry.array);
                proof {
                    done = done + 1;
                }
            } else {
                proof {
                    done = done + 1;
                }
                i = i + 1;
            }
        }
        proof {
            lemma_without(given, self.entries@, keep, name@, done);
        }
        found
    }

    /// The number of items in the array under a name; `None` where there
    /// is no such array or it cannot be split into items.
    pub fn get_length(&self, name: &str) -> (length: Option<usize>)
        ensures
            length is Some <==> self@.contains_key(name@) && splits(self@[name@]),
            length matches Some(count) ==> count == unpacked(self@[name@]).len(),
    {
        match self.get(name) {
            Some(array) => if array.item_size > 0 && array.bytes.len() % array.item_size == 0 {
                Some(array.bytes.len() / array.item_size)
            } else {
                None
            },
            None => None,
        }
    }

    /// The items of the array under a name; `None` where there is no such
    /// array or it cannot be split into items.
    pub fn get_items(&self, name: &str) -> (items: Option<Vec<Vec<u8>>>)
        ensures
            items is Some <==> self@.contains_key(name@) && splits(self@[name@]),
            items matches Some(found) ==> Seq::new(found@.len(), |i: int| found@[i]@) == unpacked(
                self@[name@],
            ),
    {
        match self.get(name) {
            Some(array) => unpack(array),
            None => None,
        }
    }
}

/// Filtering a sequence of one element keeps it or leaves nothing.
proof fn lemma_filter_one(entry: NamedArray, keep: spec_fn(NamedArray) -> bool)
    ensures
        seq![entry].filter(keep) == if keep(entry) {
            seq![entry]
        } else {
            Seq::<NamedArray>::empty()
        },
{
    reveal_with_fuel(Seq::filter, 2);
}

} // verus!
