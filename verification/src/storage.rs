//! The storage partition of the flash chip, and the file system in it.
use vstd::prelude::*;
use crate::text;

verus! {

/// The size of a storage block.
pub const STORAGE_BLOCK_SIZE: u32 = 4_096;

/// The number of blocks in the storage.
pub const STORAGE_BLOCK_COUNT: u32 = 528;

/// The size of the cache of the file system.
pub const FILE_SYSTEM_CACHE_SIZE: u32 = 4_096;

/// `s` without the prefixes `0x` at its beginning, of which there may be several.
pub open spec fn without_hex_prefix(s: Seq<char>) -> Seq<char>
    decreases s.len(),
{
    if s.len() >= 2 && s[0] == '0' && s[1] == 'x' {
        without_hex_prefix(s.skip(2))
    } else {
        s
    }
}

/// The value of a hexadecimal digit, in upper or lower case; none for another character.
pub open spec fn hex_digit(c: char) -> Option<int> {
    if '0' <= c <= '9' {
        Some(c as u32 - '0' as u32)
    } else if 'a' <= c <= 'f' {
        Some(c as u32 - 'a' as u32 + 10)
    } else if 'A' <= c <= 'F' {
        Some(c as u32 - 'A' as u32 + 10)
    } else {
        None
    }
}

/// The value of a sequence of hexadecimal digits; none if it holds another character.
pub open spec fn hex_digits(s: Seq<char>) -> Option<int>
    decreases s.len(),
{
    if s.len() == 0 {
        Some(0)
    } else {
        match (hex_digits(s.drop_last()), hex_digit(s.last())) {
            (Some(upper), Some(digit)) => Some(upper * 16 + digit),
            _ => None,
        }
    }
}

/// The digits of a number: all of it, apart from a plus that may stand before them.
pub open spec fn without_plus(s: Seq<char>) -> Seq<char> {
    if s.len() > 0 && s[0] == '+' {
        s.skip(1)
    } else {
        s
    }
}

/// The start index that `s` denotes: a hexadecimal number of 32 bits with at least one digit,
/// after prefixes `0x`. None if it denotes none.
pub open spec fn start_index(s: Seq<char>) -> Option<int> {
    let digits = without_plus(without_hex_prefix(s));
    match hex_digits(digits) {
        Some(value) if digits.len() > 0 && value <= u32::MAX => Some(value),
        _ => None,
    }
}

/// Digits only make a number larger, and one that is no digit spoils all that follow.
proof fn lemma_hex_prefix_value(s: Seq<char>, n: int)
    requires
        0 <= n <= s.len(),
    ensures
        hex_digits(s.take(n)) is None ==> hex_digits(s) is None,
        hex_digits(s) matches Some(value) ==> {
            &&& hex_digits(s.take(n)) is Some
            &&& 0 <= hex_digits(s.take(n))->0 <= value
        },
    decreases s.len(),
{
    if n == s.len() {
        assert(s.take(n) =~= s);
        if n > 0 {
            lemma_hex_prefix_value(s.drop_last(), n - 1);
        }
    } else {
        lemma_hex_prefix_value(s.drop_last(), n);
        assert(s.drop_last().take(n) =~= s.take(n));
    }
}

fn digit_value(c: char) -> (value: Option<u32>)
    ensures
        value is Some <==> hex_digit(c) is Some,
        value matches Some(v) ==> v == hex_digit(c)->0 && v < 16,
{
    let n: u32 = c as u32;
    if 0x30 <= n && n <= 0x39 {
        Some(n - 0x30)
    } else if 0x61 <= n && n <= 0x66 {
        Some(n - 0x61 + 10)
    } else if 0x41 <= n && n <= 0x46 {
        Some(n - 0x41 + 10)
    } else {
        None
    }
}

/// The start index that `s` denotes, if it denotes one.
pub fn parse_start_index(s: &str) -> (index: Option<u32>)
    ensures
        index is Some <==> start_index(s@) is Some,
        index matches Some(i) ==> i == start_index(s@)->0,
{
    let chars = text::characters(s);
    let mut from: usize = 0;
    assert(s@.skip(0) =~= s@);
    while chars.len() - from >= 2 && chars[from] == '0' && chars[from + 1] == 'x'
        invariant
            chars@ == s@,
            from <= chars.len(),
            without_hex_prefix(s@) == without_hex_prefix(s@.skip(from as int)),
        decreases chars.len() - from,
    {
        assert(s@.skip(from as int).skip(2) =~= s@.skip(from + 2));
        from = from + 2;
    }
    let ghost bare = s@.skip(from as int);
    if from < chars.len() && chars[from] == '+' {
        assert(bare.skip(1) =~= s@.skip(from + 1));
        from = from + 1;
    }
    let ghost digits = s@.skip(from as int);
    assert(digits == without_plus(bare));
    if from == chars.len() {
        return None;
    }
    let mut value: u32 = 0;
    let mut at: usize = from;
    assert(digits.take(0) =~= Seq::empty());
    while at < chars.len()
        invariant
            chars@ == s@,
            digits == s@.skip(from as int),
            from <= at <= chars.len(),
            from < chars.len(),
            start_index(s@) == (match hex_digits(digits) {
                Some(value) if digits.len() > 0 && value <= u32::MAX => Some(value),
                _ => None,
            }),
            hex_digits(digits.take(at - from)) == Some(value as int),
        decreases chars.len() - at,
    {
        let ghost upto = digits.take(at - from + 1);
        proof {
            lemma_hex_prefix_value(digits, at - from + 1);
            assert(upto.drop_last() =~= digits.take(at - from));
            assert(upto.last() == chars@[at as int]);
        }
        match digit_value(chars[at]) {
            None => {
                return None;
            },
            Some(digit) => {
                let wide: u64 = value as u64 * 16 + digit as u64;
                assert(hex_digits(upto) == Some(wide as int));
                if wide > u32::MAX as u64 {
                    return None;
                }
                value = wide as u32;
            },
        }
        at = at + 1;
    }
    assert(digits.take(at - from) =~= digits);
    Some(value)
}

/// The address at which the storage partition starts, from its entry in the partition table.
pub fn storage_offset(index: &str) -> (offset: u32)
    requires
        start_index(index@) is Some,
    ensures
        offset == start_index(index@)->0,
{
    parse_start_index(index).unwrap()
}

/// A start index may be written with the prefix `0x` or without it.
pub proof fn law_hex_prefix_is_optional(s: Seq<char>)
    ensures
        start_index(seq!['0', 'x'] + s) == start_index(s),
{
    let prefixed = seq!['0', 'x'] + s;
    assert(prefixed.skip(2) =~= s);
}

/// The address of byte `offset` of block `block`, in a partition that starts at `start`.
pub open spec fn block_address(start: int, block: int, offset: int) -> int {
    start + block * STORAGE_BLOCK_SIZE + offset
}

/// What the flash chip is asked to do.
#[derive(Clone, Copy, PartialEq, Eq, Structural, Debug)]
pub enum FlashRequest {
    /// Read so many bytes from an address on.
    Read { address: u32, len: usize },
    /// Write so many bytes from an address on.
    Write { address: u32, len: usize },
    /// Erase from an address up to another, which is not erased.
    Erase { from: u32, to: u32 },
}

/// Why a request of the file system failed.
#[derive(Clone, Copy, PartialEq, Eq, Structural, Debug)]
pub enum StorageError {
    /// The flash chip refused it.
    Io,
}

/// The storage of the file system: blocks of the flash chip, from an address on.
#[derive(Clone, Copy, PartialEq, Eq, Structural, Debug)]
pub struct LittleFsStorage {
    start: u32,
}

impl LittleFsStorage {
    /// The address at which the storage starts.
    pub closed spec fn start(self) -> int {
        self.start as int
    }

    /// The storage that starts at address `start`.
    pub fn new(start: u32) -> (storage: LittleFsStorage)
        ensures
            storage.start() == start,
    {
        LittleFsStorage { start }
    }

    /// The address of byte `offset` of block `block`.
    pub fn address(&self, block: u32, offset: u32) -> (address: u32)
        requires
            block_address(self.start(), block as int, offset as int) <= u32::MAX,
        ensures
            address == block_address(self.start(), block as int, offset as int),
    {
        self.start + block * STORAGE_BLOCK_SIZE + offset
    }

    /// The request that reads `len` bytes of block `block`, from byte `offset` on.
    pub fn read(&self, block: u32, offset: u32, len: usize) -> (request: FlashRequest)
        requires
            block_address(self.start(), block as int, offset as int) <= u32::MAX,
        ensures
            request matches FlashRequest::Read { address, len: n } && address == block_address(
                self.start(),
                block as int,
                offset as int,
            ) && n == len,
    {
        FlashRequest::Read { address: self.address(block, offset), len }
    }

    /// The request that writes `len` bytes to block `block`, from byte `offset` on.
    pub fn write(&self, block: u32, offset: u32, len: usize) -> (request: FlashRequest)
        requires
            block_address(self.start(), block as int, offset as int) <= u32::MAX,
        ensures
            request matches FlashRequest::Write { address, len: n } && address == block_address(
                self.start(),
                block as int,
                offset as int,
            ) && n == len,
    {
        FlashRequest::Write { address: self.address(block, offset), len }
    }

    /// The request that erases block `block`.
    pub fn erase(&self, block: u32) -> (request: FlashRequest)
        requires
            block_address(self.start(), block + 1, 0) <= u32::MAX,
        ensures
            request matches FlashRequest::Erase { from, to } && from == block_address(
                self.start(),
                block as int,
                0,
            ) && to == block_address(self.start(), block + 1, 0),
    {
        let from = self.address(block, 0);
        FlashRequest::Erase { from, to: from + STORAGE_BLOCK_SIZE }
    }

    /// Nothing is held back, so there is nothing to bring to the chip.
    pub fn sync(&self) -> (outcome: Result<(), StorageError>)
        ensures
            outcome == Ok::<(), StorageError>(()),
    {
        Ok(())
    }
}

/// What the file system is told of a request that the chip carried out, or did not.
pub fn storage_outcome(carried_out: bool) -> (outcome: Result<(), StorageError>)
    ensures
        outcome == if carried_out {
            Ok::<(), StorageError>(())
        } else {
            Err(StorageError::Io)
        },
{
    if carried_out {
        Ok(())
    } else {
        Err(StorageError::Io)
    }
}

/// Bytes of different blocks, or at different places in one block, have different addresses.
pub proof fn law_addresses_differ(start: int, block: int, offset: int, block2: int, offset2: int)
    requires
        0 <= offset < STORAGE_BLOCK_SIZE,
        0 <= offset2 < STORAGE_BLOCK_SIZE,
    ensures
        block_address(start, block, offset) == block_address(start, block2, offset2) <==> block
            == block2 && offset == offset2,
{
}

/// Erasing a block erases all of its bytes, and none of another block.
pub proof fn law_erase_is_exact(start: int, block: int, other: int, offset: int)
    requires
        0 <= offset < STORAGE_BLOCK_SIZE,
    ensures
        block_address(start, block, 0) <= block_address(start, other, offset) < block_address(
            start,
            block + 1,
            0,
        ) <==> block == other,
{
}

/// The blocks of the storage fill its partition from the first byte to the last.
pub proof fn law_blocks_fill_partition(start: int, block: int, offset: int)
    requires
        0 <= block < STORAGE_BLOCK_COUNT,
        0 <= offset < STORAGE_BLOCK_SIZE,
    ensures
        start <= block_address(start, block, offset) < start + STORAGE_BLOCK_COUNT
            * STORAGE_BLOCK_SIZE,
        block_address(start, 0, 0) == start,
        block_address(start, STORAGE_BLOCK_COUNT as int, 0) == start + STORAGE_BLOCK_COUNT
            * STORAGE_BLOCK_SIZE,
{
}

/// The number of erase cycles that stands for data that never move on.
pub const NO_WEAR_LEVELING: i32 = -1;

/// The settings of the file system.
#[derive(Clone, Copy, PartialEq, Eq, Structural, Debug)]
pub struct FilesystemConfig {
    /// The size of a block that is erased at once.
    pub block_size: u32,
    /// The number of blocks.
    pub block_count: u32,
    /// The least size of a read.
    pub read_size: u32,
    /// The least size of a write.
    pub prog_size: u32,
    /// How often a block is erased before its data move on; -1 for never.
    pub block_cycles: i32,
    /// The size of the caches; 0 for the size of a block.
    pub cache_size: u32,
    /// The size of the lookahead buffer; 0 for the size of a block.
    pub lookahead_size: u32,
    /// The longest name.
    pub name_max: u32,
    /// The largest file.
    pub file_max: u32,
    /// The largest attribute.
    pub attr_max: u32,
}

/// `littlefs_rust::Config::new`, read field by field: the given geometry, and the defaults of the
/// file system for the rest.
#[verifier::external_body]
fn default_config(block_size: u32, block_count: u32) -> (config: FilesystemConfig)
    ensures
        config.block_size == block_size,
        config.block_count == block_count,
        config.read_size == 16,
        config.prog_size == 16,
        config.block_cycles == NO_WEAR_LEVELING,
        config.cache_size == 0,
        config.lookahead_size == 0,
        config.name_max == 255,
        config.file_max == i32::MAX,
        config.attr_max == 1022,
{
    let c = littlefs_rust::Config::new(block_size, block_count);
    FilesystemConfig {
        block_size: c.block_size,
        block_count: c.block_count,
        read_size: c.read_size,
        prog_size: c.prog_size,
        block_cycles: c.block_cycles,
        cache_size: c.cache_size,
        lookahead_size: c.lookahead_size,
        name_max: c.name_max,
        file_max: c.file_max,
        attr_max: c.attr_max,
    }
}

/// The settings with which the storage is formatted and mounted.
pub fn filesystem_config() -> (config: FilesystemConfig)
    ensures
        config == (FilesystemConfig {
            block_size: STORAGE_BLOCK_SIZE,
            block_count: STORAGE_BLOCK_COUNT,
            read_size: 16,
            prog_size: 16,
            block_cycles: NO_WEAR_LEVELING,
            cache_size: FILE_SYSTEM_CACHE_SIZE,
            lookahead_size: 0,
            name_max: 255,
            file_max: 0x7fff_ffff,
            attr_max: 1022,
        }),
{
    let mut config = default_config(STORAGE_BLOCK_SIZE, STORAGE_BLOCK_COUNT);
    config.cache_size = FILE_SYSTEM_CACHE_SIZE;
    config
}

/// Why the file system could not be mounted.
#[derive(Clone, Copy, PartialEq, Eq, Structural, Debug)]
pub enum MountError {
    /// There is none, or it is damaged.
    Corrupt,
    /// Another reason.
    Other,
}

/// Which step made the start of the file system fail.
#[derive(Clone, Copy, PartialEq, Eq, Structural, Debug)]
pub enum StartFailure {
    /// The first attempt to mount it, for another reason than damage.
    Mount,
    /// The formatting.
    Format,
    /// The attempt to mount it after the formatting.
    MountAfterFormat,
}

/// What the start of the file system does next.
#[derive(Clone, Copy, PartialEq, Eq, Structural, Debug)]
pub enum StartCall {
    /// Mount it.
    Mount,
    /// Format it.
    Format,
    /// Mount it after it was formatted.
    MountAgain,
    /// Nothing more: it is mounted.
    Ready,
    /// Nothing more: it cannot be had.
    Failed(StartFailure),
}

/// What a step of the start came back with.
#[derive(Clone, Copy, PartialEq, Eq, Structural, Debug)]
pub enum StartEvent {
    Mounted,
    MountFailed(MountError),
    Formatted,
    FormatFailed,
}

/// What follows from `event` after `call`. A damaged file system is formatted, once. An event that
/// does not answer the call changes nothing.
pub open spec fn after(call: StartCall, event: StartEvent) -> StartCall {
    match (call, event) {
        (StartCall::Mount, StartEvent::Mounted) => StartCall::Ready,
        (StartCall::Mount, StartEvent::MountFailed(MountError::Corrupt)) => StartCall::Format,
        (StartCall::Mount, StartEvent::MountFailed(MountError::Other)) => StartCall::Failed(
            StartFailure::Mount,
        ),
        (StartCall::Format, StartEvent::Formatted) => StartCall::MountAgain,
        (StartCall::Format, StartEvent::FormatFailed) => StartCall::Failed(StartFailure::Format),
        (StartCall::MountAgain, StartEvent::Mounted) => StartCall::Ready,
        (StartCall::MountAgain, StartEvent::MountFailed(_)) => StartCall::Failed(
            StartFailure::MountAfterFormat,
        ),
        _ => call,
    }
}

/// The step with which the start of the file system begins.
pub fn start_begin() -> (call: StartCall)
    ensures
        call == StartCall::Mount,
{
    StartCall::Mount
}

/// What the start of the file system does after `event`, which `call` came back with.
pub fn init_filesystem(call: StartCall, event: StartEvent) -> (next: StartCall)
    ensures
        next == after(call, event),
{
    match (call, event) {
        (StartCall::Mount, StartEvent::Mounted) => StartCall::Ready,
        (StartCall::Mount, StartEvent::MountFailed(MountError::Corrupt)) => StartCall::Format,
        (StartCall::Mount, StartEvent::MountFailed(MountError::Other)) => StartCall::Failed(
            StartFailure::Mount,
        ),
        (StartCall::Format, StartEvent::Formatted) => StartCall::MountAgain,
        (StartCall::Format, StartEvent::FormatFailed) => StartCall::Failed(StartFailure::Format),
        (StartCall::MountAgain, StartEvent::Mounted) => StartCall::Ready,
        (StartCall::MountAgain, StartEvent::MountFailed(_)) => StartCall::Failed(
            StartFailure::MountAfterFormat,
        ),
        _ => call,
    }
}

/// Whether `event` is an answer to `call`.
pub open spec fn answers(call: StartCall, event: StartEvent) -> bool {
    match call {
        StartCall::Mount => event is Mounted || event is MountFailed,
        StartCall::MountAgain => event is Mounted || event is MountFailed,
        StartCall::Format => event is Formatted || event is FormatFailed,
        _ => false,
    }
}

/// Data are never formatted away unless the file system was found damaged.
pub proof fn law_formats_only_damaged(call: StartCall, event: StartEvent)
    requires
        call != StartCall::Format,
    ensures
        after(call, event) == StartCall::Format <==> call == StartCall::Mount && event
            == StartEvent::MountFailed(MountError::Corrupt),
{
}

/// How many more answers the start can take at most.
pub open spec fn steps_left(call: StartCall) -> int {
    match call {
        StartCall::Mount => 3,
        StartCall::Format => 2,
        StartCall::MountAgain => 1,
        _ => 0,
    }
}

/// The start ends: every answer brings it nearer to its end, which it reaches when the file system
/// is mounted or cannot be had.
pub proof fn law_start_ends(call: StartCall, event: StartEvent)
    requires
        answers(call, event),
    ensures
        0 <= steps_left(after(call, event)) < steps_left(call),
        steps_left(call) == 0 <==> call is Ready || call is Failed,
{
}

/// The file system is ready only after an attempt to mount it has succeeded.
pub proof fn law_ready_means_mounted(call: StartCall, event: StartEvent)
    requires
        call != StartCall::Ready,
        after(call, event) == StartCall::Ready,
    ensures
        event == StartEvent::Mounted,
        call == StartCall::Mount || call == StartCall::MountAgain,
{
}

/// What remains without the prefixes is the end of the text, and a prefix stands right before it.
proof fn lemma_hex_prefix_is_cut_off(s: Seq<char>)
    ensures
        without_hex_prefix(s).len() <= s.len(),
        without_hex_prefix(s) == s.skip(s.len() - without_hex_prefix(s).len()),
        without_hex_prefix(s).len() < s.len() ==> s[s.len() - without_hex_prefix(s).len() - 1] == 'x',
    decreases s.len(),
{
    if s.len() >= 2 && s[0] == '0' && s[1] == 'x' {
        let rest = s.skip(2);
        lemma_hex_prefix_is_cut_off(rest);
        let bare = without_hex_prefix(rest);
        assert(rest.skip(rest.len() - bare.len()) =~= s.skip(s.len() - bare.len()));
        if bare.len() < rest.len() {
            assert(rest[rest.len() - bare.len() - 1] == s[s.len() - bare.len() - 1]);
        }
    } else {
        assert(s.skip(0) =~= s);
    }
}

/// What follows the first digit belongs to the digits, unless it completes a prefix.
proof fn lemma_hex_prefix_append(s: Seq<char>, more: Seq<char>)
    requires
        without_hex_prefix(s).len() > 0,
        more.len() > 0,
        without_hex_prefix(s) == seq!['0'] ==> more[0] != 'x',
    ensures
        without_hex_prefix(s + more) == without_hex_prefix(s) + more,
    decreases s.len(),
{
    let all = s + more;
    if s.len() >= 2 && s[0] == '0' && s[1] == 'x' {
        assert(all.skip(2) =~= s.skip(2) + more);
        lemma_hex_prefix_append(s.skip(2), more);
    } else if s.len() == 1 && all[0] == '0' && all[1] == 'x' {
        assert(s =~= seq!['0']);
        assert(all[1] == more[0]);
    }
}

/// The digits of a text that is longer at its end are those of the text, with what was added.
proof fn lemma_digits_append(s: Seq<char>, more: Seq<char>)
    requires
        without_plus(without_hex_prefix(s)).len() > 0,
        more.len() > 0,
        without_hex_prefix(s) == seq!['0'] ==> more[0] != 'x',
    ensures
        without_plus(without_hex_prefix(s + more)) == without_plus(without_hex_prefix(s)) + more,
{
    let bare = without_hex_prefix(s);
    lemma_hex_prefix_append(s, more);
    assert((bare + more)[0] == bare[0]);
    if bare[0] == '+' {
        assert((bare + more).skip(1) =~= bare.skip(1) + more);
    }
}

/// The value of a hexadecimal digit, counted from 0 to 9, then from `a` or `A` to `f` or `F`.
pub open spec fn is_hex_digit_of(c: char, value: int) -> bool {
    ||| 0 <= value <= 9 && c as int == 48 + value
    ||| 10 <= value <= 15 && c as int == 97 + value - 10
    ||| 10 <= value <= 15 && c as int == 65 + value - 10
}

/// A start index of one character is the value of this digit, and none if it is no digit. An empty
/// one is none.
pub proof fn law_one_digit_index(s: &str, index: Option<u32>, value: int)
    requires
        call_ensures(parse_start_index, (s,), index),
    ensures
        s@.len() == 0 ==> index is None,
        s@.len() == 1 && is_hex_digit_of(s@[0], value) ==> (index matches Some(i) && i == value),
        s@.len() == 1 && index is Some ==> is_hex_digit_of(s@[0], index->0 as int),
{
    if s@.len() == 1 {
        let digits = without_plus(without_hex_prefix(s@));
        reveal_with_fuel(hex_digits, 3);
        assert(s@.drop_last() =~= Seq::empty());
        if s@[0] == '+' {
            assert(digits.len() == 0);
        } else {
            assert(digits == s@);
        }
    }
}

/// A digit behind a start index makes it sixteen times as large and adds its value, as long as that
/// fits into 32 bits. Anything else behind it, whatever follows, spoils it, but for the `x` that
/// completes a prefix.
pub proof fn law_index_digit_by_digit(
    s: &str,
    longer: &str,
    index: Option<u32>,
    next: Option<u32>,
    c: char,
    value: int,
    rest: Seq<char>,
)
    requires
        call_ensures(parse_start_index, (s,), index),
        call_ensures(parse_start_index, (longer,), next),
        index is Some,
        longer@ == s@ + seq![c] + rest,
    ensures
        is_hex_digit_of(c, value) && rest.len() == 0 && index->0 * 16 + value <= u32::MAX ==> (next
            matches Some(i) && i == index->0 * 16 + value),
        is_hex_digit_of(c, value) && index->0 * 16 + value > u32::MAX ==> next is None,
        (forall|v: int| !is_hex_digit_of(c, v)) && (c != 'x' || s@.last() != '0' || (s@.len() >= 2
            && s@[s@.len() - 2] != 'x')) ==> next is None,
{
    let bare = without_hex_prefix(s@);
    let digits = without_plus(bare);
    let more = seq![c] + rest;
    let grown = digits + more;
    assert(longer@ =~= s@ + more);
    lemma_hex_prefix_is_cut_off(s@);
    if bare == seq!['0'] {
        assert(s@.skip(s@.len() - 1)[0] == s@.last());
    }
    let completes = c == 'x' && bare == seq!['0'];
    if !completes {
        lemma_digits_append(s@, more);
        let with_digit = grown.take(digits.len() as int + 1);
        assert(with_digit =~= digits.push(c));
        assert(with_digit.drop_last() =~= digits);
        lemma_hex_prefix_value(grown, digits.len() as int + 1);
        if hex_digit(c) is Some {
            assert(is_hex_digit_of(c, hex_digit(c)->0));
            assert(hex_digits(with_digit) == Some(index->0 * 16 + hex_digit(c)->0));
            if rest.len() == 0 {
                assert(grown =~= with_digit);
            }
        }
    } else {
        assert(!is_hex_digit_of(c, value));
    }
}

/// The prefix `0x` and a plus before the digits change nothing.
pub proof fn law_index_prefixes(s: &str, longer: &str, index: Option<u32>, next: Option<u32>)
    requires
        call_ensures(parse_start_index, (s,), index),
        call_ensures(parse_start_index, (longer,), next),
    ensures
        longer@ == seq!['0', 'x'] + s@ ==> next == index,
        longer@ == seq!['+'] + s@ && s@.len() > 0 && s@[0] != '+' && !(s@.len() >= 2 && s@[1] == 'x')
            ==> next == index,
{
    if longer@ == seq!['0', 'x'] + s@ {
        law_hex_prefix_is_optional(s@);
    }
    if longer@ == seq!['+'] + s@ && s@.len() > 0 && s@[0] != '+' && !(s@.len() >= 2 && s@[1] == 'x') {
        assert(longer@.skip(1) =~= s@);
        assert(without_hex_prefix(longer@) == longer@);
        assert(without_hex_prefix(s@) == s@);
    }
}

/// Where a start index is denoted, the storage starts there.
pub proof fn law_storage_starts_at_index(s: &str, index: Option<u32>, offset: u32)
    requires
        call_ensures(parse_start_index, (s,), index),
        call_ensures(storage_offset, (s,), offset),
        index is Some,
    ensures
        index == Some(offset),
{
}

/// The requests to the chip: byte `offset` of block `block` lies so many blocks of 4096 bytes and so
/// many bytes behind the start of the storage; reading and writing move as many bytes as asked
/// for, and erasing covers the block's 4096 bytes.
pub proof fn law_requests_hit_their_block(
    start: u32,
    storage: LittleFsStorage,
    block: u32,
    offset: u32,
    len: usize,
    address: u32,
    read: FlashRequest,
    write: FlashRequest,
    erase: FlashRequest,
)
    requires
        call_ensures(LittleFsStorage::new, (start,), storage),
        call_ensures(LittleFsStorage::address, (&storage, block, offset), address),
        call_ensures(LittleFsStorage::read, (&storage, block, offset, len), read),
        call_ensures(LittleFsStorage::write, (&storage, block, offset, len), write),
        call_ensures(LittleFsStorage::erase, (&storage, block), erase),
        start + block * 4096 + offset <= u32::MAX,
        start + block * 4096 + 4096 <= u32::MAX,
    ensures
        address == start + block * 4096 + offset,
        read matches FlashRequest::Read { address: at, len: n } && at == start + block * 4096
            + offset && n == len,
        write matches FlashRequest::Write { address: at, len: n } && at == start + block * 4096
            + offset && n == len,
        erase matches FlashRequest::Erase { from, to } && from == start + block * 4096 && to == from
            + 4096,
{
}

/// A request that the chip refused is an error, and one that it carried out is none; there is never
/// anything left to bring to the chip.
pub proof fn law_outcomes_are_passed_on(
    carried_out: bool,
    outcome: Result<(), StorageError>,
    storage: LittleFsStorage,
    synced: Result<(), StorageError>,
)
    requires
        call_ensures(storage_outcome, (carried_out,), outcome),
        call_ensures(LittleFsStorage::sync, (&storage,), synced),
    ensures
        outcome is Ok <==> carried_out,
        synced is Ok,
{
}

/// The file system has 528 blocks of 4096 bytes, caches of one block, and reads and writes of 16
/// bytes, which a block and a cache hold a whole number of.
pub proof fn law_file_system_geometry(config: FilesystemConfig)
    requires
        call_ensures(filesystem_config, (), config),
    ensures
        config.block_size == 4096,
        config.block_count == 528,
        config.cache_size == 4096,
        config.read_size == 16,
        config.prog_size == 16,
        config.block_cycles == -1,
        config.lookahead_size == 0,
        config.name_max == 255,
        config.file_max == 0x7fff_ffff,
        config.attr_max == 1022,
{
}

/// Every step of the start of the file system: it is mounted, and if it is damaged, formatted and
/// mounted again. What fails otherwise ends the start with the step that failed.
pub proof fn law_start_steps(call: StartCall, event: StartEvent, next: StartCall, first: StartCall)
    requires
        call_ensures(init_filesystem, (call, event), next),
        call_ensures(start_begin, (), first),
    ensures
        first is Mount,
        (call is Mount || call is MountAgain) && event is Mounted ==> next is Ready,
        call is Mount && event == StartEvent::MountFailed(MountError::Corrupt) ==> next is Format,
        call is Mount && event == StartEvent::MountFailed(MountError::Other) ==> next
            == StartCall::Failed(StartFailure::Mount),
        call is Format && event is Formatted ==> next is MountAgain,
        call is Format && event is FormatFailed ==> next == StartCall::Failed(StartFailure::Format),
        call is MountAgain && event is MountFailed ==> next == StartCall::Failed(
            StartFailure::MountAfterFormat,
        ),
        (call is Mount || call is MountAgain) && (event is Formatted || event is FormatFailed)
            ==> next == call,
        call is Format && (event is Mounted || event is MountFailed) ==> next == call,
        call is Ready || call is Failed ==> next == call,
{
}

} // verus!
