//! The memory of the host, as `android.app.ActivityManager` reports it.
//!
//! The kernel's `/proc/meminfo` is preferred, since its available memory counts
//! what can be reclaimed; the figures of `sysinfo(2)` stand in where it cannot be
//! read.

use vstd::prelude::*;

use crate::text;

verus! {

pub const KIB: u64 = 1024;

pub const MIB: u64 = 1024 * 1024;

/// A host with at most this much memory is in the low-RAM device class.
pub const LOW_RAM_MAX_BYTES: u64 = 1024 * 1024 * 1024;

/// The cap of the managed heap, in MiB.
pub const HEAP_MIB: u32 = 768;

/// One consistent reading of the host's memory.
#[derive(Clone, Copy, Debug, PartialEq, Eq, Structural)]
pub struct MemorySnapshot {
    /// Memory that is available without swapping, in bytes.
    pub available_bytes: u64,
    /// Physical memory that the kernel sees, in bytes.
    pub total_bytes: u64,
}

impl MemorySnapshot {
    /// A reading is of some memory, and no more of it is available than there is.
    pub open spec fn wf(self) -> bool {
        self.available_bytes <= self.total_bytes && self.total_bytes > 0
    }

    /// The reading of a total and an available figure: none where the total is
    /// zero, and what is available is cut off at the total.
    pub open spec fn of(total: u64, available: u64) -> Option<Self> {
        if total == 0 {
            None
        } else {
            Some(
                MemorySnapshot {
                    available_bytes: if available < total {
                        available
                    } else {
                        total
                    },
                    total_bytes: total,
                },
            )
        }
    }

    /// The reading of a total and an available figure.
    pub fn new(total_bytes: u64, available_bytes: u64) -> (snapshot: Option<Self>)
        ensures
            snapshot == Self::of(total_bytes, available_bytes),
            snapshot is Some ==> snapshot->0.wf(),
            snapshot is None <==> total_bytes == 0,
            snapshot matches Some(s) ==> s.total_bytes == total_bytes,
            snapshot matches Some(s) ==> s.available_bytes <= available_bytes
                && s.available_bytes <= total_bytes && (s.available_bytes == available_bytes
                || s.available_bytes == total_bytes),
    {
        if total_bytes == 0 {
            return None;
        }
        let available: u64 = if available_bytes < total_bytes {
            available_bytes
        } else {
            total_bytes
        };
        Some(MemorySnapshot { available_bytes: available, total_bytes })
    }

    /// Whether the host is in the low-RAM device class.
    #[must_use]
    pub fn is_low_ram_device(self) -> (b: bool)
        ensures
            b == (self.total_bytes <= 1024 * 1024 * 1024),
    {
        self.total_bytes <= LOW_RAM_MAX_BYTES
    }

    /// The total in whole MiB, rounded down.
    #[must_use]
    pub fn total_mib(self) -> (mib: u64)
        ensures
            mib == self.total_bytes / 1_048_576,
    {
        self.total_bytes / MIB
    }
}

/// The bytes that a line of `/proc/meminfo` states for `key`: after the key stand
/// two words, a number and `kB`, and the number of bytes fits in 64 bits.
pub open spec fn kib_value(line: Seq<char>, key: Seq<char>) -> Option<u64> {
    let fields = text::words(line.skip(key.len() as int));
    if text::starts(line, key) && fields.len() == 2 && fields[1] == "kB"@ {
        match text::u64_of(fields[0]) {
            Some(value) => if value * 1024 <= u64::MAX {
                Some((value * 1024) as u64)
            } else {
                None
            },
            None => None,
        }
    } else {
        None
    }
}

/// What the first line that states a value for `key` states.
pub open spec fn first_kib_value(lines: Seq<Seq<char>>, key: Seq<char>) -> Option<u64>
    decreases lines.len(),
{
    if lines.len() == 0 {
        None
    } else if kib_value(lines[0], key) is Some {
        kib_value(lines[0], key)
    } else {
        first_kib_value(lines.skip(1), key)
    }
}

/// The reading that the text of `/proc/meminfo` states: it takes both a total and
/// an available figure.
pub open spec fn meminfo_snapshot(contents: Seq<char>) -> Option<MemorySnapshot> {
    match (
        first_kib_value(text::lines(contents), "MemTotal:"@),
        first_kib_value(text::lines(contents), "MemAvailable:"@),
    ) {
        (Some(total), Some(available)) => MemorySnapshot::of(total, available),
        _ => None,
    }
}

/// The bytes that a line of `/proc/meminfo` states for `key`.
pub fn parse_kib_value(line: &[char], key: &str) -> (bytes: Option<u64>)
    ensures
        bytes == kib_value(line@, key@),
{
    let key = text::chars_of(key);
    if !text::starts_with(line, &key) {
        return None;
    }
    let rest = text::part(line, key.len(), line.len());
    assert(rest@ =~= line@.skip(key@.len() as int));
    let fields = text::split_words(&rest);
    if fields.len() != 2 {
        return None;
    }
    let unit = text::chars_of("kB");
    if !text::same(&fields[1], &unit) {
        return None;
    }
    match text::parse_u64(&fields[0]) {
        Some(value) => value.checked_mul(KIB),
        None => None,
    }
}

/// What the first line that states a value for `key` states.
fn find_kib_value(lines: &Vec<Vec<char>>, key: &str) -> (bytes: Option<u64>)
    ensures
        bytes == first_kib_value(lines@.map_values(|l: Vec<char>| l@), key@),
{
    let ghost all = lines@.map_values(|l: Vec<char>| l@);
    let mut i: usize = 0;
    assert(all.skip(0) =~= all);
    while i < lines.len()
        invariant
            i <= lines@.len(),
            all == lines@.map_values(|l: Vec<char>| l@),
            first_kib_value(all.skip(i as int), key@) == first_kib_value(all, key@),
        decreases lines@.len() - i,
    {
        let found = parse_kib_value(&lines[i], key);
        assert(all.skip(i as int)[0] == lines@[i as int]@);
        if found.is_some() {
            return found;
        }
        assert(all.skip(i as int).skip(1) =~= all.skip(i + 1));
        i += 1;
    }
    None
}

/// The reading that the text of `/proc/meminfo` states.
pub fn parse_meminfo(contents: &str) -> (snapshot: Option<MemorySnapshot>)
    ensures
        snapshot == meminfo_snapshot(contents@),
        snapshot is Some ==> snapshot->0.wf(),
{
    let chars = text::chars_of(contents);
    let lines = text::split_lines(&chars);
    assert(lines@.map_values(|l: Vec<char>| l@) =~= text::lines(contents@));
    let total: u64 = match find_kib_value(&lines, "MemTotal:") {
        Some(total) => total,
        None => {
            return None;
        },
    };
    let available: u64 = match find_kib_value(&lines, "MemAvailable:") {
        Some(available) => available,
        None => {
            return None;
        },
    };
    MemorySnapshot::new(total, available)
}

/// The figures of `sysinfo(2)` that matter here, in units of `mem_unit` bytes.
#[derive(Clone, Copy, Debug, PartialEq, Eq, Structural)]
pub struct SysInfo {
    pub total_ram: u64,
    pub free_ram: u64,
    pub buffer_ram: u64,
    pub mem_unit: u32,
}

impl SysInfo {
    /// The size of a unit in bytes; a kernel that reports none means bytes.
    pub open spec fn unit(self) -> int {
        if self.mem_unit == 0 {
            1
        } else {
            self.mem_unit as int
        }
    }

    /// The reading of the figures, none where one of them does not fit in 64
    /// bits of bytes.
    pub open spec fn reading(self) -> Option<MemorySnapshot> {
        let total = self.total_ram * self.unit();
        let available = (self.free_ram + self.buffer_ram) * self.unit();
        if total <= u64::MAX && self.free_ram + self.buffer_ram <= u64::MAX && available
            <= u64::MAX {
            MemorySnapshot::of(total as u64, available as u64)
        } else {
            None
        }
    }
}

/// The reading of the figures of `sysinfo(2)`.
pub fn sysinfo_snapshot(info: SysInfo) -> (snapshot: Option<MemorySnapshot>)
    ensures
        snapshot == info.reading(),
        snapshot is Some ==> snapshot->0.wf(),
        ({
            let unit = if info.mem_unit == 0 {
                1int
            } else {
                info.mem_unit as int
            };
            let total = info.total_ram * unit;
            let available = (info.free_ram + info.buffer_ram) * unit;
            &&& snapshot is Some <==> 0 < total <= u64::MAX && info.free_ram + info.buffer_ram
                <= u64::MAX && available <= u64::MAX
            &&& snapshot matches Some(s) ==> s.total_bytes == total && (if available < total {
                s.available_bytes == available
            } else {
                s.available_bytes == total
            })
        }),
{
    let unit: u64 = if info.mem_unit == 0 {
        1
    } else {
        info.mem_unit as u64
    };
    let total: u64 = match info.total_ram.checked_mul(unit) {
        Some(total) => total,
        None => {
            return None;
        },
    };
    let available_units: u64 = match info.free_ram.checked_add(info.buffer_ram) {
        Some(units) => units,
        None => {
            return None;
        },
    };
    match available_units.checked_mul(unit) {
        Some(available) => MemorySnapshot::new(total, available),
        None => None,
    }
}

/// The reading of a host, given what could be read of `/proc/meminfo` and of
/// `sysinfo(2)`: the second counts only where the first states nothing.
pub fn host_memory_snapshot(meminfo: Option<&str>, sysinfo: Option<SysInfo>) -> (snapshot: Option<
    MemorySnapshot,
>)
    ensures
        snapshot == (if meminfo is Some && meminfo_snapshot(meminfo->0@) is Some {
            meminfo_snapshot(meminfo->0@)
        } else if sysinfo is Some {
            sysinfo->0.reading()
        } else {
            None
        }),
        snapshot is Some ==> snapshot->0.wf(),
{
    if let Some(contents) = meminfo {
        let read = parse_meminfo(contents);
        if read.is_some() {
            return read;
        }
    }
    match sysinfo {
        Some(info) => sysinfo_snapshot(info),
        None => None,
    }
}

/// The cap of the managed heap, in MiB: the memory class and the large memory
/// class alike.
#[must_use]
pub fn managed_heap_mib() -> (mib: u32)
    ensures
        mib == 768,
{
    HEAP_MIB
}

/// A byte count as a signed 64-bit number, cut off at the largest one.
pub fn memory_bytes_to_jlong(bytes: u64) -> (value: i64)
    ensures
        bytes <= i64::MAX ==> value == bytes,
        bytes > i64::MAX ==> value == i64::MAX,
{
    if bytes <= i64::MAX as u64 {
        bytes as i64
    } else {
        i64::MAX
    }
}

/// What an app is told of the memory. There are no limits below which apps are
/// stopped, so that they are all zero and memory is never low.
#[derive(Clone, Copy, Debug, PartialEq, Eq, Structural)]
pub struct MemoryInfo {
    pub avail_mem: i64,
    pub total_mem: i64,
    pub threshold: i64,
    pub hidden_app_threshold: i64,
    pub secondary_server_threshold: i64,
    pub visible_app_threshold: i64,
    pub foreground_app_threshold: i64,
    pub low_memory: bool,
}

/// A byte count as Java holds it.
pub open spec fn java_bytes(bytes: u64) -> i64 {
    if bytes <= i64::MAX {
        bytes as i64
    } else {
        i64::MAX
    }
}

/// What an app is told of the memory.
pub fn memory_info(snapshot: MemorySnapshot) -> (info: MemoryInfo)
    ensures
        info == (MemoryInfo {
            avail_mem: java_bytes(snapshot.available_bytes),
            total_mem: java_bytes(snapshot.total_bytes),
            threshold: 0,
            hidden_app_threshold: 0,
            secondary_server_threshold: 0,
            visible_app_threshold: 0,
            foreground_app_threshold: 0,
            low_memory: false,
        }),
        snapshot.available_bytes <= i64::MAX ==> info.avail_mem == snapshot.available_bytes,
        snapshot.total_bytes <= i64::MAX ==> info.total_mem == snapshot.total_bytes,
        snapshot.available_bytes > i64::MAX ==> info.avail_mem == i64::MAX,
        snapshot.total_bytes > i64::MAX ==> info.total_mem == i64::MAX,
{
    MemoryInfo {
        avail_mem: memory_bytes_to_jlong(snapshot.available_bytes),
        total_mem: memory_bytes_to_jlong(snapshot.total_bytes),
        threshold: 0,
        hidden_app_threshold: 0,
        secondary_server_threshold: 0,
        visible_app_threshold: 0,
        foreground_app_threshold: 0,
        low_memory: false,
    }
}

/// The memory class of apps, in MiB, the large one too.
pub fn memory_class() -> (mib: i32)
    ensures
        mib == HEAP_MIB,
        mib == 768,
{
    managed_heap_mib() as i32
}

/// Whether the host is in the low-RAM device class; it is not where its memory is
/// not known.
pub fn is_low_ram(snapshot: Option<MemorySnapshot>) -> (b: bool)
    ensures
        b == (snapshot is Some && snapshot->0.total_bytes <= LOW_RAM_MAX_BYTES),
        b == (snapshot is Some && snapshot->0.total_bytes <= 1_073_741_824),
{
    match snapshot {
        Some(s) => s.is_low_ram_device(),
        None => false,
    }
}

/// A line of the table is its key, a number and the unit `kB`, with white space between
/// them; it tells that many times 1024 bytes, where that fits.
pub proof fn law_line_tells_its_kibibytes(
    key: Seq<char>,
    white: Seq<char>,
    digits: Seq<char>,
    gap: char,
    more: Seq<char>,
)
    requires
        forall|i: int| 0 <= i < white.len() ==> text::is_white(#[trigger] white[i]),
        forall|i: int| 0 <= i < more.len() ==> text::is_white(#[trigger] more[i]),
        text::is_white(gap),
        digits.len() > 0,
        forall|i: int| 0 <= i < digits.len() ==> '0' <= #[trigger] digits[i] <= '9',
    ensures
        ({
            let line = key + (white + digits.push(gap) + (more + "kB"@));
            &&& text::decimal(digits) * 1024 <= u64::MAX ==> kib_value(line, key) == Some(
                (text::decimal(digits) * 1024) as u64,
            )
            &&& text::decimal(digits) * 1024 > u64::MAX ==> kib_value(line, key) is None
        }),
{
    reveal_strlit("kB");
    let unit = "kB"@;
    let rest = white + digits.push(gap) + (more + unit);
    let line = key + rest;
    assert(line.skip(key.len() as int) =~= rest);
    assert(line.take(key.len() as int) =~= key);
    assert forall|i: int| 0 <= i < digits.len() implies !text::is_white(#[trigger] digits[i]) by {
        assert('0' <= digits[i] <= '9');
    }
    assert forall|i: int| 0 <= i < unit.len() implies !text::is_white(#[trigger] unit[i]) by {}
    text::law_words_end_at_white_space(white, digits, gap, more + unit);
    text::law_words_end_at_white_space(more, unit, gap, Seq::empty());
    let fields = text::words(rest);
    assert(fields =~= seq![digits, unit]);
    text::law_sign_goes_before_the_digits(digits);
}

/// A line with another key tells nothing of this one, nor does one without exactly a number
/// and the unit behind its key.
pub proof fn law_other_lines_tell_nothing(line: Seq<char>, key: Seq<char>)
    requires
        ({
            ||| key.len() > line.len()
            ||| line.take(key.len() as int) != key
            ||| text::words(line.skip(key.len() as int)).len() != 2
            ||| text::words(line.skip(key.len() as int))[1] != "kB"@
            ||| text::u64_of(text::words(line.skip(key.len() as int))[0]) is None
        }),
    ensures
        kib_value(line, key) is None,
{
}

/// The first line that tells a key's value counts.
pub proof fn law_first_line_counts(lines: Seq<Seq<char>>, key: Seq<char>, at: int)
    ensures
        0 <= at < lines.len() && kib_value(lines[at], key) is Some && (forall|j: int|
            0 <= j < at ==> kib_value(#[trigger] lines[j], key) is None) ==> first_kib_value(
            lines,
            key,
        ) == kib_value(lines[at], key),
        (forall|j: int| 0 <= j < lines.len() ==> kib_value(#[trigger] lines[j], key) is None)
            ==> first_kib_value(lines, key) is None,
    decreases lines.len(),
{
    if lines.len() > 0 {
        let rest = lines.skip(1);
        law_first_line_counts(rest, key, at - 1);
        assert(lines[0] == lines[0]);
        if 0 < at < lines.len() {
            assert(rest[at - 1] == lines[at]);
        }
        if at < lines.len() && forall|j: int|
            0 <= j < at ==> kib_value(#[trigger] lines[j], key) is None {
            assert forall|j: int| 0 <= j < at - 1 implies kib_value(#[trigger] rest[j], key) is None by {
                assert(rest[j] == lines[j + 1]);
            }
        }
        if forall|j: int| 0 <= j < lines.len() ==> kib_value(#[trigger] lines[j], key) is None {
            assert forall|j: int| 0 <= j < rest.len() implies kib_value(
                #[trigger] rest[j],
                key,
            ) is None by {
                assert(rest[j] == lines[j + 1]);
            }
        }
    }
}

/// The memory of the machine is read from two lines of its table: all of it from `MemTotal`
/// and what is free from `MemAvailable`, which is never more than all of it.
pub proof fn law_memory_is_read_from_two_lines(contents: Seq<char>, total: u64, available: u64)
    requires
        first_kib_value(text::lines(contents), "MemTotal:"@) == Some(total),
        first_kib_value(text::lines(contents), "MemAvailable:"@) == Some(available),
    ensures
        total == 0 ==> meminfo_snapshot(contents) is None,
        total > 0 ==> meminfo_snapshot(contents) is Some,
        meminfo_snapshot(contents) matches Some(s) ==> s.total_bytes == total && (if available
            < total {
            s.available_bytes == available
        } else {
            s.available_bytes == total
        }),
{
}

/// Without one of the two lines nothing is read.
pub proof fn law_memory_needs_both_lines(contents: Seq<char>)
    requires
        first_kib_value(text::lines(contents), "MemTotal:"@) is None || first_kib_value(
            text::lines(contents),
            "MemAvailable:"@,
        ) is None,
    ensures
        meminfo_snapshot(contents) is None,
{
}

} // verus!
