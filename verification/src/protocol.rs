//! Controller protocol constants: the BLE identifiers the controller
//! exposes, the two-byte command codes it accepts, and the UUID text
//! format those identifiers are written in.

use vstd::prelude::*;
use vstd::string::StringSliceAdditionalSpecFns;

verus! {

/// The controller's BLE service UUID ("OculusThreemote" in ASCII).
pub fn service_uuid() -> (r: &'static str)
    ensures
        r@ == "4f63756c-7573-2054-6872-65656d6f7465"@,
{
    "4f63756c-7573-2054-6872-65656d6f7465"
}

/// The characteristic sensor data arrives on.
pub fn data_char_uuid() -> (r: &'static str)
    ensures
        r@ == "c8c51726-81bc-483b-a052-f7a14ea3d281"@,
{
    "c8c51726-81bc-483b-a052-f7a14ea3d281"
}

/// The characteristic commands are sent to.
pub fn command_char_uuid() -> (r: &'static str)
    ensures
        r@ == "c8c51726-81bc-483b-a052-f7a14ea3d282"@,
{
    "c8c51726-81bc-483b-a052-f7a14ea3d282"
}

/// Milliseconds to wait between initialization commands.
pub const COMMAND_DELAY_MS: u64 = 50;

/// Controller initialization and control commands.
#[derive(Clone, Copy, Debug, PartialEq, Eq, Structural)]
pub enum ControllerCommand {
    /// Turn all modes off and stop sending data.
    Off,
    /// Sensor mode: touchpad and buttons at a lower rate.
    SensorMode,
    /// Initiate the firmware upgrade sequence (use with caution).
    FirmwareUpgrade,
    /// Calibration mode.
    Calibration,
    /// Keep-alive.
    KeepAlive,
    /// Setting mode.
    SettingMode,
    /// Low-power mode on.
    LpmEnable,
    /// Low-power mode off.
    LpmDisable,
    /// VR mode: high-frequency updates.
    VrModeEnable,
    /// Optimize connection parameters.
    OptimizeConnection,
}

/// The two-byte wire encoding of each command.
pub open spec fn spec_command_bytes(c: ControllerCommand) -> Seq<u8> {
    match c {
        ControllerCommand::Off => seq![0x00u8, 0x00u8],
        ControllerCommand::SensorMode => seq![0x01u8, 0x00u8],
        ControllerCommand::FirmwareUpgrade => seq![0x02u8, 0x00u8],
        ControllerCommand::Calibration => seq![0x03u8, 0x00u8],
        ControllerCommand::KeepAlive => seq![0x04u8, 0x00u8],
        ControllerCommand::SettingMode => seq![0x05u8, 0x00u8],
        ControllerCommand::LpmEnable => seq![0x06u8, 0x00u8],
        ControllerCommand::LpmDisable => seq![0x07u8, 0x00u8],
        ControllerCommand::VrModeEnable => seq![0x08u8, 0x00u8],
        ControllerCommand::OptimizeConnection => seq![0x0Au8, 0x02u8],
    }
}

impl ControllerCommand {
    /// The raw bytes for this command.
    pub fn as_bytes(&self) -> (r: [u8; 2])
        ensures
            r@ == spec_command_bytes(*self),
    {
        let r: [u8; 2] = match self {
            ControllerCommand::Off => [0x00, 0x00],
            ControllerCommand::SensorMode => [0x01, 0x00],
            ControllerCommand::FirmwareUpgrade => [0x02, 0x00],
            ControllerCommand::Calibration => [0x03, 0x00],
            ControllerCommand::KeepAlive => [0x04, 0x00],
            ControllerCommand::SettingMode => [0x05, 0x00],
            ControllerCommand::LpmEnable => [0x06, 0x00],
            ControllerCommand::LpmDisable => [0x07, 0x00],
            ControllerCommand::VrModeEnable => [0x08, 0x00],
            ControllerCommand::OptimizeConnection => [0x0A, 0x02],
        };
        proof {
            assert(r@ =~= spec_command_bytes(*self));
        }
        r
    }
}

/// A 128-bit identifier in its native split layout.
#[derive(Clone, Copy, Debug, PartialEq, Eq)]
pub struct Guid {
    pub data1: u32,
    pub data2: u16,
    pub data3: u16,
    pub data4: [u8; 8],
}

/// Why a UUID string was rejected.
#[derive(Clone, Copy, Debug, PartialEq, Eq, Structural)]
pub enum UuidError {
    /// Not exactly 32 hexadecimal digits once dashes are removed.
    InvalidLength,
    /// A character that is neither a dash nor a hexadecimal digit.
    InvalidDigit,
}

/// The value of one hexadecimal digit, or -1 for any other byte.
pub open spec fn spec_hex_val(b: u8) -> int {
    if 48 <= b <= 57 {
        b - 48
    } else if 97 <= b <= 102 {
        b - 87
    } else if 65 <= b <= 70 {
        b - 55
    } else {
        -1
    }
}

pub open spec fn spec_is_hex(b: u8) -> bool {
    spec_hex_val(b) >= 0
}

pub open spec fn spec_all_hex(ns: Seq<u8>) -> bool {
    forall|i: int| 0 <= i < ns.len() ==> spec_is_hex(#[trigger] ns[i])
}

/// The big-endian value of a run of hexadecimal digits.
pub open spec fn spec_hex_value(ns: Seq<u8>) -> int
    decreases ns.len(),
{
    if ns.len() == 0 {
        0
    } else {
        spec_hex_value(ns.drop_last()) * 16 + spec_hex_val(ns.last())
    }
}

/// Sixteen to the `n`.
pub open spec fn pow16(n: nat) -> int
    decreases n,
{
    if n == 0 {
        1
    } else {
        16 * pow16((n - 1) as nat)
    }
}

pub proof fn lemma_pow16_pos(n: nat)
    ensures
        pow16(n) >= 1,
    decreases n,
{
    if n > 0 {
        lemma_pow16_pos((n - 1) as nat);
    }
}

pub proof fn lemma_pow16_mono(a: nat, b: nat)
    requires
        a <= b,
    ensures
        pow16(a) <= pow16(b),
    decreases b,
{
    if a < b {
        lemma_pow16_mono(a, (b - 1) as nat);
        lemma_pow16_pos((b - 1) as nat);
    }
}

/// A run of `n` hexadecimal digits encodes a value below `16^n`.
pub proof fn lemma_hex_value_bound(ns: Seq<u8>)
    requires
        spec_all_hex(ns),
    ensures
        0 <= spec_hex_value(ns) < pow16(ns.len()),
    decreases ns.len(),
{
    if ns.len() > 0 {
        let t = ns.drop_last();
        assert forall|i: int| 0 <= i < t.len() implies spec_is_hex(#[trigger] t[i]) by {
            assert(t[i] == ns[i]);
        }
        lemma_hex_value_bound(t);
        assert(spec_is_hex(ns[ns.len() - 1]));
    }
}

/// The byte predicate that survives dash-stripping.
pub open spec fn spec_not_dash(b: u8) -> bool {
    b != 45
}

/// The digits of a UUID string: its bytes with dashes removed.
pub open spec fn spec_uuid_digits(s: Seq<u8>) -> Seq<u8> {
    s.filter(|b: u8| spec_not_dash(b))
}

/// The value of one hexadecimal digit; anything else reports failure.
fn hex_val(b: u8) -> (r: Option<u8>)
    ensures
        spec_is_hex(b) ==> r == Some(spec_hex_val(b) as u8),
        !spec_is_hex(b) ==> r is None,
        r matches Some(v) ==> v < 16,
{
    if 48 <= b && b <= 57 {
        Some(b - 48)
    } else if 97 <= b && b <= 102 {
        Some(b - 87)
    } else if 65 <= b && b <= 70 {
        Some(b - 55)
    } else {
        None
    }
}

/// The value of a run of hexadecimal digits, at most eight of them.
fn hex_field(digits: &Vec<u8>, start: usize, len: usize) -> (r: u64)
    requires
        start + len <= digits@.len(),
        len <= 8,
        forall|i: int| 0 <= i < digits@.len() ==> spec_is_hex(#[trigger] digits@[i]),
    ensures
        r == spec_hex_value(digits@.subrange(start as int, start as int + len as int)),
        r < 0x1_0000_0000,
{
    let digit_count = digits.len();
    let mut acc: u64 = 0;
    let mut j: usize = 0;
    while j < len
        invariant
            0 <= j <= len,
            len <= 8,
            start + len <= digit_count,
            digit_count == digits@.len(),
            forall|i: int| 0 <= i < digits@.len() ==> spec_is_hex(#[trigger] digits@[i]),
            acc == spec_hex_value(digits@.subrange(start as int, start as int + j as int)),
            acc < pow16(j as nat),
        decreases len - j,
    {
        let b = digits[start + j];
        let v = match hex_val(b) {
            Some(v) => v,
            None => 0,  // unreachable: every digit is hexadecimal
        };
        proof {
            let pre = digits@.subrange(start as int, start as int + j as int);
            let post = digits@.subrange(start as int, start as int + j as int + 1);
            assert(post.drop_last() =~= pre);
            assert(post.last() == digits@[start as int + j as int]);
            assert(pow16((j + 1) as nat) == 16 * pow16(j as nat));
            lemma_pow16_mono((j + 1) as nat, 8);
            assert(pow16(8) == 0x1_0000_0000) by {
                assert(pow16(0) == 1);
                assert(pow16(1) == 16);
                assert(pow16(2) == 256);
                assert(pow16(3) == 4096);
                assert(pow16(4) == 65536);
                assert(pow16(5) == 0x10_0000);
                assert(pow16(6) == 0x100_0000);
                assert(pow16(7) == 0x1000_0000);
            }
        }
        acc = acc * 16 + v as u64;
        j = j + 1;
    }
    proof {
        lemma_pow16_mono(len as nat, 8);
        assert(pow16(8) == 0x1_0000_0000) by {
            assert(pow16(0) == 1);
            assert(pow16(1) == 16);
            assert(pow16(2) == 256);
            assert(pow16(3) == 4096);
            assert(pow16(4) == 65536);
            assert(pow16(5) == 0x10_0000);
            assert(pow16(6) == 0x100_0000);
            assert(pow16(7) == 0x1000_0000);
        }
    }
    acc
}

/// Parses a UUID string into a [`Guid`].
///
/// Dashes may appear anywhere and are ignored; what remains must be
/// exactly 32 hexadecimal digits: eight for `data1`, four each for
/// `data2` and `data3`, and two for each byte of `data4`.
pub fn parse_uuid(uuid_str: &str) -> (r: Result<Guid, UuidError>)
    ensures
        ({
            let ns = spec_uuid_digits(uuid_str.spec_bytes());
            &&& (r is Err <==> (ns.len() != 32 || !spec_all_hex(ns)))
            &&& ns.len() != 32 ==> r == Err::<Guid, UuidError>(UuidError::InvalidLength)
            &&& ns.len() == 32 && !spec_all_hex(ns) ==> r == Err::<Guid, UuidError>(
                UuidError::InvalidDigit,
            )
            &&& r matches Ok(g) ==> {
                &&& g.data1 == spec_hex_value(ns.subrange(0, 8))
                &&& g.data2 == spec_hex_value(ns.subrange(8, 12))
                &&& g.data3 == spec_hex_value(ns.subrange(12, 16))
                &&& forall|j: int|
                    0 <= j < 8 ==> #[trigger] g.data4@[j] == spec_hex_value(
                        ns.subrange(16 + 2 * j, 18 + 2 * j),
                    )
            }
        }),
{
    let bytes = uuid_str.as_bytes();
    let n = bytes.len();
    let mut digits: Vec<u8> = Vec::new();
    let mut i: usize = 0;
    while i < n
        invariant
            0 <= i <= n,
            n == bytes@.len(),
            digits@ == spec_uuid_digits(bytes@.take(i as int)),
        decreases n - i,
    {
        let b = bytes[i];
        proof {
            reveal(Seq::filter);
            let pre = bytes@.take(i as int);
            let post = bytes@.take(i as int + 1);
            assert(post.drop_last() =~= pre);
            assert(post.last() == bytes@[i as int]);
            assert(spec_uuid_digits(post) == if spec_not_dash(b) {
                spec_uuid_digits(pre).push(b)
            } else {
                spec_uuid_digits(pre)
            });
        }
        if b != 45 {
            digits.push(b);
        }
        i = i + 1;
    }
    proof {
        assert(bytes@.take(n as int) =~= bytes@);
    }

    if digits.len() != 32 {
        return Err(UuidError::InvalidLength);
    }

    let mut k: usize = 0;
    while k < 32
        invariant
            0 <= k <= 32,
            digits@.len() == 32,
            digits@ == spec_uuid_digits(uuid_str.spec_bytes()),
            forall|i: int| 0 <= i < k ==> spec_is_hex(#[trigger] digits@[i]),
        decreases 32 - k,
    {
        if hex_val(digits[k]).is_none() {
            proof {
                assert(!spec_is_hex(spec_uuid_digits(uuid_str.spec_bytes())[k as int]));
            }
            return Err(UuidError::InvalidDigit);
        }
        k = k + 1;
    }

    proof {
        let ns = spec_uuid_digits(uuid_str.spec_bytes());
        assert(pow16(0) == 1);
        assert(pow16(1) == 16);
        assert(pow16(2) == 256);
        assert(pow16(3) == 4096);
        assert(pow16(4) == 65536);
        assert forall|a: int, b: int|
            0 <= a <= b <= 32 && b - a <= 8 implies spec_all_hex(
            #[trigger] ns.subrange(a, b),
        ) by {
            let sub = ns.subrange(a, b);
            assert forall|i: int| 0 <= i < sub.len() implies spec_is_hex(#[trigger] sub[i]) by {
                assert(sub[i] == ns[a + i]);
            }
        }
        lemma_hex_value_bound(ns.subrange(8, 12));
        lemma_hex_value_bound(ns.subrange(12, 16));
        lemma_hex_value_bound(ns.subrange(16, 18));
        lemma_hex_value_bound(ns.subrange(18, 20));
        lemma_hex_value_bound(ns.subrange(20, 22));
        lemma_hex_value_bound(ns.subrange(22, 24));
        lemma_hex_value_bound(ns.subrange(24, 26));
        lemma_hex_value_bound(ns.subrange(26, 28));
        lemma_hex_value_bound(ns.subrange(28, 30));
        lemma_hex_value_bound(ns.subrange(30, 32));
    }
    let data1 = hex_field(&digits, 0, 8) as u32;
    let data2 = hex_field(&digits, 8, 4) as u16;
    let data3 = hex_field(&digits, 12, 4) as u16;
    let b0 = hex_field(&digits, 16, 2) as u8;
    let b1 = hex_field(&digits, 18, 2) as u8;
    let b2 = hex_field(&digits, 20, 2) as u8;
    let b3 = hex_field(&digits, 22, 2) as u8;
    let b4 = hex_field(&digits, 24, 2) as u8;
    let b5 = hex_field(&digits, 26, 2) as u8;
    let b6 = hex_field(&digits, 28, 2) as u8;
    let b7 = hex_field(&digits, 30, 2) as u8;
    let data4: [u8; 8] = [b0, b1, b2, b3, b4, b5, b6, b7];
    proof {
        let ns = spec_uuid_digits(uuid_str.spec_bytes());
        assert forall|j: int| 0 <= j < 8 implies #[trigger] data4@[j] == spec_hex_value(
            ns.subrange(16 + 2 * j, 18 + 2 * j),
        ) by {
            if j == 0 {
                assert(data4@[0] == b0);
            } else if j == 1 {
                assert(data4@[1] == b1);
            } else if j == 2 {
                assert(data4@[2] == b2);
            } else if j == 3 {
                assert(data4@[3] == b3);
            } else if j == 4 {
                assert(data4@[4] == b4);
            } else if j == 5 {
                assert(data4@[5] == b5);
            } else if j == 6 {
                assert(data4@[6] == b6);
            } else {
                assert(data4@[7] == b7);
            }
        }
    }
    Ok(Guid { data1, data2, data3, data4 })
}

/// The standard initialization sequence: each command with its repeat
/// count.
pub fn init_sequence() -> (r: Vec<(ControllerCommand, u32)>)
    ensures
        r@ =~= seq![
            (ControllerCommand::SensorMode, 3u32),
            (ControllerCommand::LpmEnable, 1u32),
            (ControllerCommand::LpmDisable, 1u32),
            (ControllerCommand::VrModeEnable, 3u32),
        ],
{
    let mut r: Vec<(ControllerCommand, u32)> = Vec::new();
    r.push((ControllerCommand::SensorMode, 3));
    r.push((ControllerCommand::LpmEnable, 1));
    r.push((ControllerCommand::LpmDisable, 1));
    r.push((ControllerCommand::VrModeEnable, 3));
    r
}

} // verus!
