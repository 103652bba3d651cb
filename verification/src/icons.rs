//! Country flags: a table of images by country code and the lookup with
//! its fallbacks.

use vstd::prelude::*;
use crate::text::{chars_of, lowercase, same_chars_from, to_lowercase};

verus! {

/// Width and height of a flag image in the tray, in pixels.
pub const ICON_SIZE: u32 = 64;

/// A flag image.
#[derive(Debug, Clone, Copy)]
pub struct FlagIcon<'a> {
    /// The image as PNG bytes.
    pub data: &'a [u8],
}

/// One flag of a table.
#[derive(Debug, Clone)]
pub struct FlagEntry {
    /// Country code, in lower case.
    pub code: String,
    /// The image as PNG bytes.
    pub data: Vec<u8>,
}

/// Flags by country code, in the order in which their codes were first
/// inserted. No code occurs twice, and no image is empty.
#[derive(Debug)]
pub struct FlagTable {
    entries: Vec<FlagEntry>,
}

/// Model of a flag table: its entries in order, each a code and an image.
pub type Flags = Seq<(Seq<char>, Seq<u8>)>;

/// What holds of every flag table: no image is empty, and no code occurs
/// twice.
pub open spec fn valid_flags(flags: Flags) -> bool {
    &&& forall|i: int| 0 <= i < flags.len() ==> (#[trigger] flags[i]).1.len() > 0
    &&& forall|i: int, j: int|
        0 <= i < j < flags.len() ==> (#[trigger] flags[i]).0 != (#[trigger] flags[j]).0
}

/// The image stored under `code`, if there is one.
pub open spec fn image_of(flags: Flags, code: Seq<char>) -> Option<Seq<u8>>
    decreases flags.len(),
{
    if flags.len() == 0 {
        None
    } else if flags[0].0 == code {
        Some(flags[0].1)
    } else {
        image_of(flags.skip(1), code)
    }
}

/// The table with `data` stored under `code`: in place of the image that
/// was stored under it, or at the end if there was none.
pub open spec fn with_flag(flags: Flags, code: Seq<char>, data: Seq<u8>) -> Flags
    decreases flags.len(),
{
    if flags.len() == 0 {
        seq![(code, data)]
    } else if flags[0].0 == code {
        seq![(code, data)] + flags.skip(1)
    } else {
        seq![flags[0]] + with_flag(flags.skip(1), code, data)
    }
}

/// The image shown for the lower-case code `code`: the one stored under
/// it; else the one stored under `xx`; else the first of the table; else
/// no bytes at all.
pub open spec fn flag_for(flags: Flags, code: Seq<char>) -> Seq<u8> {
    match image_of(flags, code) {
        Some(data) => data,
        None => match image_of(flags, "xx"@) {
            Some(data) => data,
            None => if flags.len() > 0 {
                flags[0].1
            } else {
                Seq::empty()
            },
        },
    }
}

/// Where no entry before `k` is stored under `code`, the search goes on
/// from `k`.
proof fn lemma_image_of_skip(flags: Flags, code: Seq<char>, k: int)
    requires
        0 <= k <= flags.len(),
        forall|i: int| 0 <= i < k ==> flags[i].0 != code,
    ensures
        image_of(flags, code) == image_of(flags.skip(k), code),
    decreases k,
{
    if k > 0 {
        lemma_image_of_skip(flags.skip(1), code, k - 1);
        assert(flags.skip(1).skip(k - 1) =~= flags.skip(k));
    } else {
        assert(flags.skip(0) =~= flags);
    }
}

/// Where no entry before `k` is stored under `code`, storing under `code`
/// replaces entry `k` if that is stored under it, and adds an entry if `k`
/// is the end.
proof fn lemma_with_flag_at(flags: Flags, code: Seq<char>, data: Seq<u8>, k: int)
    requires
        0 <= k <= flags.len(),
        forall|i: int| 0 <= i < k ==> flags[i].0 != code,
        k < flags.len() ==> flags[k].0 == code,
    ensures
        k < flags.len() ==> with_flag(flags, code, data) == flags.update(k, (code, data)),
        k == flags.len() ==> with_flag(flags, code, data) == flags.push((code, data)),
    decreases k,
{
    if k > 0 {
        lemma_with_flag_at(flags.skip(1), code, data, k - 1);
        if k < flags.len() {
            assert(seq![flags[0]] + flags.skip(1).update(k - 1, (code, data)) =~= flags.update(
                k,
                (code, data),
            ));
        } else {
            assert(seq![flags[0]] + flags.skip(1).push((code, data)) =~= flags.push((code, data)));
        }
    } else if k < flags.len() {
        assert(seq![(code, data)] + flags.skip(1) =~= flags.update(0, (code, data)));
    } else {
        assert(seq![(code, data)] =~= flags.push((code, data)));
    }
}

/// The model of a sequence of entries.
spec fn flags_of(entries: Seq<FlagEntry>) -> Flags {
    Seq::new(entries.len(), |i: int| (entries[i].code@, entries[i].data@))
}

impl View for FlagTable {
    type V = Flags;

    closed spec fn view(&self) -> Flags {
        flags_of(self.entries@)
    }
}

impl FlagTable {
    #[verifier::type_invariant]
    spec fn well_formed(self) -> bool {
        valid_flags(self@)
    }

    /// A table without flags.
    pub fn new() -> (table: Self)
        ensures
            table@ == Flags::empty(),
            valid_flags(table@),
    {
        let table = FlagTable { entries: Vec::new() };
        assert(table@ =~= Flags::empty());
        table
    }

    /// Index of the first entry stored under `code`, or the number of
    /// entries if there is none.
    fn position(&self, code: &Vec<char>) -> (k: usize)
        ensures
            k <= self@.len(),
            forall|i: int| 0 <= i < k ==> self@[i].0 != code@,
            k < self@.len() ==> self@[k as int].0 == code@,
    {
        let mut k: usize = 0;
        while k < self.entries.len()
            invariant
                0 <= k <= self.entries@.len(),
                self@.len() == self.entries@.len(),
                forall|i: int| 0 <= i < k ==> self@[i].0 != code@,
            decreases self.entries@.len() - k,
        {
            let entry_code = chars_of(self.entries[k].code.as_str());
            assert(entry_code@.skip(0) =~= entry_code@);
            assert(self@[k as int].0 == entry_code@);
            if same_chars_from(&entry_code, 0, code) {
                return k;
            }
            k = k + 1;
        }
        k
    }

    /// Stores the image `data` under `code`: in place of the image that
    /// was stored under it, or as a new last entry. An empty image is not
    /// stored, and the table stays as it was.
    pub fn insert(&mut self, code: String, data: Vec<u8>) -> (stored: bool)
        ensures
            stored == (data@.len() > 0),
            final(self)@ == if stored {
                with_flag(old(self)@, code@, data@)
            } else {
                old(self)@
            },
            valid_flags(final(self)@),
    {
        proof {
            use_type_invariant(&*self);
        }
        if data.len() == 0 {
            return false;
        }
        let code_chars = chars_of(code.as_str());
        let k = self.position(&code_chars);
        let ghost before = self@;
        proof {
            lemma_with_flag_at(before, code@, data@, k as int);
        }
        let mut entries: Vec<FlagEntry> = Vec::new();
        std::mem::swap(&mut entries, &mut self.entries);
        assert(self@ =~= Flags::empty());
        if k < entries.len() {
            entries.set(k, FlagEntry { code, data });
            assert(flags_of(entries@) =~= before.update(k as int, (code@, data@)));
        } else {
            entries.push(FlagEntry { code, data });
            assert(flags_of(entries@) =~= before.push((code@, data@)));
        }
        proof {
            lemma_with_flag_stays_valid(before, code@, data@);
        }
        self.entries = entries;
        true
    }

    /// The image stored under the code whose characters are `code`.
    fn get(&self, code: &Vec<char>) -> (data: Option<&[u8]>)
        ensures
            match data {
                Some(bytes) => image_of(self@, code@) == Some(bytes@),
                None => image_of(self@, code@) is None,
            },
    {
        let k = self.position(code);
        proof {
            lemma_image_of_skip(self@, code@, k as int);
        }
        if k < self.entries.len() {
            Some(self.entries[k].data.as_slice())
        } else {
            None
        }
    }

    /// The image of the first entry.
    fn first(&self) -> (data: Option<&[u8]>)
        ensures
            match data {
                Some(bytes) => self@.len() > 0 && self@[0].1 == bytes@,
                None => self@.len() == 0,
            },
    {
        if self.entries.len() > 0 {
            Some(self.entries[0].data.as_slice())
        } else {
            None
        }
    }
}

/// The flag for a code that is in lower case already: the one stored
/// under it; else the one stored under `xx`; else the first flag of the
/// table. Only an empty table gives an empty image.
pub fn flag_of_lowered<'a>(flags: &'a FlagTable, code: &str) -> (flag: FlagIcon<'a>)
    ensures
        flag.data@ == flag_for(flags@, code@),
        flags@.len() > 0 ==> flag.data@.len() > 0,
        valid_flags(flags@),
{
    proof {
        use_type_invariant(flags);
        if flags@.len() > 0 {
            lemma_flag_is_never_empty(flags@, code@);
        }
    }
    let code_chars = chars_of(code);
    if let Some(data) = flags.get(&code_chars) {
        return FlagIcon { data };
    }
    let unknown = chars_of("xx");
    if let Some(data) = flags.get(&unknown) {
        return FlagIcon { data };
    }
    if let Some(data) = flags.first() {
        return FlagIcon { data };
    }
    let none: &'static [u8] = &[];
    assert(none@ =~= Seq::<u8>::empty());
    FlagIcon { data: none }
}

/// True if the table holds a flag for a code that is in lower case
/// already.
pub fn has_flag_lowered(flags: &FlagTable, code: &str) -> (found: bool)
    ensures
        found == image_of(flags@, code@) is Some,
{
    let code_chars = chars_of(code);
    flags.get(&code_chars).is_some()
}

/// The flag for a country code, whatever the case of its letters. An
/// unknown code gets the flag stored under `xx`, or without that the first
/// flag of the table; only an empty table gives an empty image.
pub fn get_flag<'a>(flags: &'a FlagTable, country_code: &str) -> (flag: FlagIcon<'a>)
    ensures
        flag.data@ == flag_for(flags@, lowercase(country_code@)),
        flags@.len() > 0 ==> flag.data@.len() > 0,
        valid_flags(flags@),
{
    let code = to_lowercase(country_code);
    flag_of_lowered(flags, code.as_str())
}

/// True if the table holds a flag for the country code, whatever the case
/// of its letters.
pub fn has_flag(flags: &FlagTable, country_code: &str) -> (found: bool)
    ensures
        found == image_of(flags@, lowercase(country_code@)) is Some,
{
    let code = to_lowercase(country_code);
    has_flag_lowered(flags, code.as_str())
}

/// The number of flags in the table, each under a code of its own.
pub fn flag_count(flags: &FlagTable) -> (count: usize)
    ensures
        count == flags@.len(),
        valid_flags(flags@),
{
    proof {
        use_type_invariant(flags);
    }
    flags.entries.len()
}

/// An image that the table stores under some code is the image of one of
/// its entries.
pub proof fn lemma_image_of_is_an_entry(flags: Flags, code: Seq<char>)
    requires
        image_of(flags, code) is Some,
    ensures
        exists|i: int| 0 <= i < flags.len() && #[trigger] flags[i].1 == image_of(flags, code)->0,
    decreases flags.len(),
{
    if flags[0].0 == code {
        assert(flags[0].1 == image_of(flags, code)->0);
    } else {
        lemma_image_of_is_an_entry(flags.skip(1), code);
        let i = choose|i: int|
            0 <= i < flags.skip(1).len() && #[trigger] flags.skip(1)[i].1 == image_of(
                flags.skip(1),
                code,
            )->0;
        assert(flags[i + 1].1 == image_of(flags, code)->0);
    }
}

/// A table that holds a flag has a non-empty image for every code, known
/// or not.
pub proof fn lemma_flag_is_never_empty(flags: Flags, code: Seq<char>)
    requires
        valid_flags(flags),
        flags.len() > 0,
    ensures
        flag_for(flags, code).len() > 0,
{
    if image_of(flags, code) is Some {
        lemma_image_of_is_an_entry(flags, code);
    } else if image_of(flags, "xx"@) is Some {
        lemma_image_of_is_an_entry(flags, "xx"@);
    }
}

/// The flag of a code does not depend on the case of its letters: two
/// codes with the same lowercase form get the same image.
pub proof fn lemma_flag_ignores_case(flags: Flags, a: Seq<char>, b: Seq<char>)
    ensures
        lowercase(a) == lowercase(b) ==> {
            &&& flag_for(flags, lowercase(a)) == flag_for(flags, lowercase(b))
            &&& image_of(flags, lowercase(a)) == image_of(flags, lowercase(b))
        },
{
}

/// After an image is stored under a code, the table holds that image
/// under that code and what it held before under every other code.
pub proof fn lemma_with_flag_lookup(
    flags: Flags,
    code: Seq<char>,
    data: Seq<u8>,
    other: Seq<char>,
)
    ensures
        image_of(with_flag(flags, code, data), code) == Some(data),
        other != code ==> image_of(with_flag(flags, code, data), other) == image_of(flags, other),
        with_flag(flags, code, data).len() == if image_of(flags, code) is Some {
            flags.len()
        } else {
            flags.len() + 1
        },
    decreases flags.len(),
{
    let stored = with_flag(flags, code, data);
    if flags.len() == 0 {
        assert(stored.skip(1) =~= Flags::empty());
        assert(image_of(stored.skip(1), other) is None);
    } else if flags[0].0 == code {
        assert(stored.skip(1) =~= flags.skip(1));
    } else {
        lemma_with_flag_lookup(flags.skip(1), code, data, other);
        assert(stored.skip(1) =~= with_flag(flags.skip(1), code, data));
        assert(stored[0] == flags[0]);
    }
    assert(stored.len() > 0);
}

/// Index of the first entry stored under `code`, or the number of entries
/// if there is none.
pub open spec fn position_of(flags: Flags, code: Seq<char>) -> int
    decreases flags.len(),
{
    if flags.len() == 0 || flags[0].0 == code {
        0
    } else {
        1 + position_of(flags.skip(1), code)
    }
}

/// No entry before `position_of` is stored under the code, and the entry
/// at it is, if there is one.
proof fn lemma_position_of(flags: Flags, code: Seq<char>)
    ensures
        0 <= position_of(flags, code) <= flags.len(),
        forall|i: int| 0 <= i < position_of(flags, code) ==> (#[trigger] flags[i]).0 != code,
        position_of(flags, code) < flags.len() ==> flags[position_of(flags, code)].0 == code,
    decreases flags.len(),
{
    if flags.len() > 0 && flags[0].0 != code {
        lemma_position_of(flags.skip(1), code);
        assert forall|i: int| 0 <= i < position_of(flags, code) implies (#[trigger] flags[i]).0
            != code by {
            if i > 0 {
                assert(flags.skip(1)[i - 1] == flags[i]);
            }
        }
    }
}

/// Storing a non-empty image keeps a table valid: still no code occurs
/// twice and no image is empty.
pub proof fn lemma_with_flag_stays_valid(flags: Flags, code: Seq<char>, data: Seq<u8>)
    requires
        valid_flags(flags),
        data.len() > 0,
    ensures
        valid_flags(with_flag(flags, code, data)),
{
    lemma_position_of(flags, code);
    lemma_with_flag_at(flags, code, data, position_of(flags, code));
}

} // verus!
