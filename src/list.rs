//! A container being edited: its name, where it came from, its sounds, and
//! whether it has unsaved changes; and the container file it is saved as.
use vstd::prelude::*;
use vstd::string::*;
use crate::item::ListItem;

verus! {

/// One record of a container file: id, name and data.
pub struct ContainerRecord {
    pub id: u32,
    pub name: String,
    pub data: Vec<u8>,
}

/// A record as plain values.
pub open spec fn record_view(r: ContainerRecord) -> (u32, Seq<char>, Seq<u8>) {
    (r.id, r.name@, r.data@)
}

/// Records as plain values.
pub open spec fn records_view(records: Seq<ContainerRecord>) -> Seq<(u32, Seq<char>, Seq<u8>)> {
    records.map_values(|r: ContainerRecord| record_view(r))
}

/// The bytes of the container file that nus3audio writes for `records`.
pub uninterp spec fn nus3audio_image(records: Seq<(u32, Seq<char>, Seq<u8>)>) -> Seq<u8>;

/// An upper bound on the bytes that records take in a container file: four
/// bytes per name character at most, a terminator, the data, up to 16 bytes
/// of padding after it, and the 16 bytes of index entries per record (id,
/// name offset, data offset and size).
pub open spec fn records_size(records: Seq<(u32, Seq<char>, Seq<u8>)>) -> int
    decreases records.len(),
{
    if records.len() == 0 {
        0
    } else {
        let (_, name, data) = records.last();
        records_size(records.drop_last()) + 4 * name.len() + 1 + data.len() + 16 + 16
    }
}

/// Size of the fixed parts of a container file (section headers and the
/// padding before the data come to under 100 bytes), with room to spare.
pub open spec fn container_overhead() -> int {
    256
}

/// Relies on nus3audio's `Nus3audioFile::write`, which computes every
/// offset and size of the file in a `u32`: it overflows unless the file
/// stays within 4 GiB. Its output depends on the records alone.
#[verifier::external_body]
fn nus3audio_write(records: Vec<ContainerRecord>) -> (r: Vec<u8>)
    requires
        records_size(records_view(records@)) + container_overhead() <= u32::MAX,
    ensures
        r@ == nus3audio_image(records_view(records@)),
{
    let mut file = nus3audio::Nus3audioFile::new();
    for record in records {
        file.files.push(nus3audio::AudioFile { id: record.id, name: record.name, data: record.data });
    }
    let mut out: Vec<u8> = Vec::new();
    file.write(&mut out);
    out
}

/// A container being edited.
pub struct List {
    /// The container's file name.
    pub name: String,
    /// Where the container was read from, if anywhere.
    pub path: Option<String>,
    /// Its sounds, in order.
    pub items: Vec<ListItem>,
    /// Whether there are unsaved changes.
    pub modified: bool,
}

impl List {
    /// Every sound is well formed.
    pub open spec fn wf(&self) -> bool {
        forall|i: int| 0 <= i < self.items@.len() ==> (#[trigger] self.items@[i])@.wf()
    }

    /// An empty, unnamed container without changes.
    pub fn new() -> (r: List)
        ensures
            r.wf(),
            r.name@ == Seq::<char>::empty(),
            r.path is None,
            r.items@.len() == 0,
            !r.modified,
    {
        List { name: String::new(), path: None, items: Vec::new(), modified: false }
    }

    /// Removes the sound at `index`; the container then has changes.
    pub fn remove(&mut self, index: usize)
        requires
            index < old(self).items@.len(),
            old(self).wf(),
        ensures
            final(self).items@ == old(self).items@.remove(index as int),
            final(self).modified,
            final(self).name == old(self).name,
            final(self).path == old(self).path,
            final(self).wf(),
    {
        self.items.remove(index);
        self.modified = true;
    }

    /// Removes every sound; the container then has no changes.
    pub fn clear(&mut self)
        ensures
            final(self).items@.len() == 0,
            !final(self).modified,
            final(self).name == old(self).name,
            final(self).path == old(self).path,
            final(self).wf(),
    {
        self.items.clear();
        self.modified = false;
    }

    /// Appends a sound; the container then has changes.
    pub fn add_item(&mut self, item: ListItem)
        requires
            old(self).wf(),
            item@.wf(),
        ensures
            final(self).items@ == old(self).items@.push(item),
            final(self).modified,
            final(self).name == old(self).name,
            final(self).path == old(self).path,
            final(self).wf(),
    {
        self.items.push(item);
        self.modified = true;
        proof {
            assert forall|i: int| 0 <= i < self.items@.len() implies (
            #[trigger] self.items@[i])@.wf() by {
                if i < old(self).items@.len() {
                    assert(self.items@[i] == old(self).items@[i]);
                }
            }
        }
    }

    /// The label of the sound at `line`, if there is one.
    pub fn get_label_of(&self, line: usize) -> (r: Option<String>)
        ensures
            r is Some <==> line < self.items@.len(),
            r matches Some(s) ==> s@ == self.items@[line as int]@.label_text(),
    {
        if line < self.items.len() {
            Some(self.items[line].label())
        } else {
            None
        }
    }

    /// The records of the container file for the sounds with `data` as
    /// their encoded bytes: ids counting up from zero, and the sounds' names.
    pub open spec fn expected_records(&self, data: Seq<Vec<u8>>) -> Seq<(u32, Seq<char>, Seq<u8>)> {
        Seq::new(
            self.items@.len(),
            |i: int| (i as u32, self.items@[i]@.name, data[i]@),
        )
    }

    /// The container records for the sounds, with `data` as their encoded
    /// bytes and ids counting up from zero in the sounds' order.
    pub fn container_records(&self, data: Vec<Vec<u8>>) -> (r: Vec<ContainerRecord>)
        requires
            data@.len() == self.items@.len(),
            self.items@.len() <= u32::MAX,
        ensures
            r@.len() == self.items@.len(),
            forall|i: int|
                0 <= i < r@.len() ==> #[trigger] record_view(r@[i]) == (
                    i as u32,
                    self.items@[i]@.name,
                    data@[i]@,
                ),
    {
        let mut out: Vec<ContainerRecord> = Vec::new();
        let n = self.items.len();
        let mut i: usize = 0;
        while i < n
            invariant
                n == self.items@.len(),
                n <= u32::MAX,
                i <= n,
                data@.len() == n,
                out@.len() == i,
                forall|j: int|
                    0 <= j < i ==> #[trigger] record_view(out@[j]) == (
                        j as u32,
                        self.items@[j]@.name,
                        data@[j]@,
                    ),
            decreases n - i,
        {
            let ghost prev = out@;
            out.push(
                ContainerRecord {
                    id: i as u32,
                    name: String::from_str(self.items[i].name().as_str()),
                    data: crate::codec::copy_bytes(&data[i]),
                },
            );
            proof {
                assert forall|j: int| 0 <= j < i + 1 implies #[trigger] record_view(out@[j]) == (
                    j as u32,
                    self.items@[j]@.name,
                    data@[j]@,
                ) by {
                    if j < i {
                        assert(out@[j] == prev[j]);
                    }
                }
            }
            i = i + 1;
        }
        out
    }

    /// The container file for the sounds, with `data` as their encoded
    /// bytes and ids counting up from zero; an error where the file would
    /// exceed what its 32-bit offsets can address.
    pub fn container_bytes(&self, data: Vec<Vec<u8>>) -> (r: Result<Vec<u8>, String>)
        requires
            data@.len() == self.items@.len(),
        ensures
            r is Ok <==> self.items@.len() <= u32::MAX && records_size(
                self.expected_records(data@),
            ) + container_overhead() <= u32::MAX,
            r is Ok ==> r->Ok_0@ == nus3audio_image(self.expected_records(data@)),
    {
        if self.items.len() > 0xffff_ffff {
            return Err(String::from_str("Too many sounds for a container"));
        }
        let ghost expected = self.expected_records(data@);
        let records = self.container_records(data);
        proof {
            assert(records_view(records@) =~= expected);
        }
        let total = records_size_of(&records);
        match total {
            None => Err(String::from_str("The container would be larger than 4 GiB")),
            Some(_) => Ok(nus3audio_write(records)),
        }
    }
}

/// Computes `records_size` of the records, or `None` where it would leave
/// no room for the fixed parts under 4 GiB.
fn records_size_of(records: &Vec<ContainerRecord>) -> (r: Option<u64>)
    ensures
        r is Some <==> records_size(records_view(records@)) + container_overhead() <= u32::MAX,
        r matches Some(t) ==> t == records_size(records_view(records@)),
{
    let ghost rv = records_view(records@);
    let limit: u64 = 0xffff_feff;
    let mut total: u64 = 0;
    let mut i: usize = 0;
    while i < records.len()
        invariant
            rv == records_view(records@),
            limit == 0xffff_feff,
            i <= records@.len(),
            total as int == records_size(rv.subrange(0, i as int)),
            total <= limit,
        decreases records@.len() - i,
    {
        let record = &records[i];
        let name_len = record.name.as_str().unicode_len() as u64;
        let data_len = record.data.len() as u64;
        proof {
            assert(rv[i as int] == record_view(records@[i as int]));
            lemma_records_size_grows(rv, i as int + 1);
            lemma_records_size_nonneg(rv.subrange(0, i as int));
            lemma_records_size_at_least(rv, i as int + 1);
        }
        if name_len > limit || data_len > limit {
            return None;
        }
        let step = 4 * name_len + 1 + data_len + 16 + 16;
        if total + step > limit {
            return None;
        }
        total = total + step;
        i = i + 1;
    }
    proof {
        assert(rv.subrange(0, records@.len() as int) =~= rv);
    }
    Some(total)
}

/// The size of a prefix grows with each record.
proof fn lemma_records_size_grows(records: Seq<(u32, Seq<char>, Seq<u8>)>, k: int)
    requires
        0 < k <= records.len(),
    ensures
        records_size(records.subrange(0, k)) == records_size(records.subrange(0, k - 1)) + 4
            * records[k - 1].1.len() + 1 + records[k - 1].2.len() + 16 + 16,
{
    assert(records.subrange(0, k).drop_last() =~= records.subrange(0, k - 1));
}

/// Sizes are never negative.
proof fn lemma_records_size_nonneg(records: Seq<(u32, Seq<char>, Seq<u8>)>)
    ensures
        records_size(records) >= 0,
    decreases records.len(),
{
    if records.len() > 0 {
        lemma_records_size_nonneg(records.drop_last());
    }
}

/// The size of all records is at least the size of any prefix.
proof fn lemma_records_size_at_least(records: Seq<(u32, Seq<char>, Seq<u8>)>, k: int)
    requires
        0 <= k <= records.len(),
    ensures
        records_size(records) >= records_size(records.subrange(0, k)),
    decreases records.len() - k,
{
    if k < records.len() {
        lemma_records_size_at_least(records, k + 1);
        lemma_records_size_grows(records, k + 1);
    } else {
        assert(records.subrange(0, k) =~= records);
    }
}

} // verus!
