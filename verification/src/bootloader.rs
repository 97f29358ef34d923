//! Getting a Crazyflie into its bootloader and flashing it: the radio
//! packets, the URI that disables safelink, reading the bootloader address
//! from the nRF51's answer, and the arithmetic of flashing.
use vstd::prelude::*;
use crate::text::{chars_of, decimal, push_decimal};

verus! {

/// Address byte of the nRF51 bootloader target.
pub const TARGET_NRF51: u8 = 0xFE;

/// Number of times the reset-to-bootloader command is sent to confirm it.
pub const CONFIRM_REPEATS: usize = 10;

/// Packet that disables safelink on the nRF51 so that it forwards
/// bootloader messages.
pub fn disable_safelink_packet() -> (p: Vec<u8>)
    ensures
        p@ == seq![0xFFu8, TARGET_NRF51, 0xFFu8, 0x05u8, 0x00u8],
{
    vec![0xFF, TARGET_NRF51, 0xFF, 0x05, 0x00]
}

/// Packet that initiates a reset of the Crazyflie.
pub fn reset_init_packet() -> (p: Vec<u8>)
    ensures
        p@ == seq![0xFFu8, TARGET_NRF51, 0xFFu8],
{
    vec![0xFF, TARGET_NRF51, 0xFF]
}

/// Packet that resets the Crazyflie into its bootloader.
pub fn reset_to_bootloader_packet() -> (p: Vec<u8>)
    ensures
        p@ == seq![0xFFu8, TARGET_NRF51, 0xF0u8, 0x00u8],
{
    vec![0xFF, TARGET_NRF51, 0xF0, 0x00]
}

/// Packet that resets the Crazyflie into its firmware.
pub fn reset_to_firmware_packet() -> (p: Vec<u8>)
    ensures
        p@ == seq![0xFFu8, TARGET_NRF51, 0xF0u8, 0x01u8],
{
    vec![0xFF, TARGET_NRF51, 0xF0, 0x01]
}

/// The URI with safelink disabled: "safelink=0" appended as a query
/// parameter, after '&' when the URI already has a query and '?' otherwise.
pub open spec fn safelink_disabled_uri_spec(uri: Seq<char>) -> Seq<char> {
    uri + (if uri.contains('?') {
        "&"@
    } else {
        "?"@
    }) + "safelink=0"@
}

/// The URI with safelink disabled (see `safelink_disabled_uri_spec`).
pub fn safelink_disabled_uri(uri: &str) -> (s: String)
    ensures
        s@ == safelink_disabled_uri_spec(uri@),
{
    let cs = chars_of(uri);
    let mut has_query = false;
    let mut i: usize = 0;
    while i < cs.len()
        invariant
            i <= cs.len(),
            cs@ == uri@,
            has_query == cs@.subrange(0, i as int).contains('?'),
        decreases cs.len() - i,
    {
        assert(cs@.subrange(0, i + 1) =~= cs@.subrange(0, i as int).push(cs@[i as int]));
        if cs[i] == '?' {
            has_query = true;
            assert(cs@.subrange(0, i + 1)[i as int] == '?');
        }
        i = i + 1;
    }
    assert(cs@.subrange(0, cs.len() as int) == cs@);
    let mut s = String::from_str(uri);
    if has_query {
        s.append("&");
    } else {
        s.append("?");
    }
    s.append("safelink=0");
    s
}

/// Whether a packet received from the nRF51 answers the reset command: it
/// has more than two bytes and starts with the target and 0xFF.
pub open spec fn is_reset_answer(data: Seq<u8>) -> bool {
    data.len() > 2 && data[0] == TARGET_NRF51 && data[1] == 0xFFu8
}

/// Whether a packet received from the nRF51 answers the reset command.
pub fn is_reset_answer_packet(data: &[u8]) -> (b: bool)
    ensures
        b == is_reset_answer(data@),
{
    data.len() > 2 && data[0] == TARGET_NRF51 && data[1] == 0xFF
}

/// The bootloader address in an answer to the reset command: 0xB1 followed
/// by bytes 2 to 5 of the answer in reverse order.
pub open spec fn address_in_answer(data: Seq<u8>) -> Seq<u8> {
    seq![0xB1u8, data[5], data[4], data[3], data[2]]
}

/// Reads the bootloader address from a packet received from the nRF51, if
/// the packet is the answer to the reset command. An answer must carry the
/// four address bytes.
pub fn bootloader_address(data: &[u8]) -> (r: Option<[u8; 5]>)
    requires
        is_reset_answer(data@) ==> data@.len() >= 6,
    ensures
        match r {
            Some(a) => is_reset_answer(data@) && a@ == address_in_answer(data@),
            None => !is_reset_answer(data@),
        },
{
    if is_reset_answer_packet(data) {
        let a = [0xB1u8, data[5], data[4], data[3], data[2]];
        assert(a@ =~= address_in_answer(data@));
        Some(a)
    } else {
        None
    }
}

/// What happened while waiting for the bootloader address; each event
/// tells whether the time allowed for the answer (5 seconds) is over.
pub enum WaitEvent {
    /// A packet arrived.
    Received { data: Vec<u8>, past_deadline: bool },
    /// Nothing arrived for a while.
    Quiet { past_deadline: bool },
}

impl WaitEvent {
    pub open spec fn is_past_deadline(&self) -> bool {
        match self {
            WaitEvent::Received { past_deadline, .. } => *past_deadline,
            WaitEvent::Quiet { past_deadline } => *past_deadline,
        }
    }
}

/// What to do next while waiting for the bootloader address.
pub enum WaitAction {
    /// The address is known.
    Found { address: [u8; 5] },
    /// Ignore the packet and keep waiting.
    KeepWaiting,
    /// Send the reset command again and keep waiting.
    Resend { packet: Vec<u8> },
    /// Give up with this error.
    GiveUp { message: String },
}

/// The decision while waiting for the bootloader address: once the deadline
/// has passed, give up whatever happened; before it, an answer to the reset
/// command gives the address, other packets are ignored, and a quiet spell
/// resends the reset command.
pub fn wait_for_address_step(event: &WaitEvent) -> (a: WaitAction)
    requires
        event matches WaitEvent::Received { data, .. } ==> (!event.is_past_deadline() && is_reset_answer(data@)
            ==> data@.len() >= 6),
    ensures
        event.is_past_deadline() ==> (a matches WaitAction::GiveUp { message } && message@
            == "Timeout waiting for bootloader address"@),
        !event.is_past_deadline() ==> match event {
            WaitEvent::Received { data, .. } => if is_reset_answer(data@) {
                a matches WaitAction::Found { address } && address@ == address_in_answer(data@)
            } else {
                a is KeepWaiting
            },
            WaitEvent::Quiet { .. } => a matches WaitAction::Resend { packet } && packet@ == seq![
                0xFFu8,
                TARGET_NRF51,
                0xFFu8,
            ],
        },
{
    match event {
        WaitEvent::Received { data, past_deadline } => {
            if *past_deadline {
                WaitAction::GiveUp { message: String::from_str("Timeout waiting for bootloader address") }
            } else {
                match bootloader_address(data.as_slice()) {
                    Some(address) => WaitAction::Found { address },
                    None => WaitAction::KeepWaiting,
                }
            }
        },
        WaitEvent::Quiet { past_deadline } => {
            if *past_deadline {
                WaitAction::GiveUp { message: String::from_str("Timeout waiting for bootloader address") }
            } else {
                WaitAction::Resend { packet: reset_init_packet() }
            }
        },
    }
}

/// Law: the bootloader address read from an answer always has five bytes
/// and starts with 0xB1, followed by the answer's address bytes reversed.
pub proof fn law_bootloader_address_shape(data: Seq<u8>)
    requires
        is_reset_answer(data),
        data.len() >= 6,
    ensures
        address_in_answer(data).len() == 5,
        address_in_answer(data)[0] == 0xB1u8,
        forall|k: int| 1 <= k < 5 ==> #[trigger] address_in_answer(data)[k] == data[6 - k],
{
}

/// How the Crazyflie is brought into its bootloader for flashing.
#[derive(Clone, Debug, PartialEq, Eq)]
pub enum BootMode {
    /// It is already in bootloader mode: look for it there.
    Cold,
    /// It runs its firmware at this URI: reboot it into the bootloader.
    Warm { uri: String },
    /// It runs its firmware somewhere: scan the radio for it, then reboot
    /// the one found into the bootloader (see `boot_from_scan`).
    Scan,
}

/// Chooses how to reach the bootloader: cold boot when asked for, else warm
/// boot through the given URI, else warm boot through a Crazyflie found by
/// scanning.
pub fn choose_boot(uri: Option<String>, cold: bool) -> (r: BootMode)
    ensures
        cold ==> r == BootMode::Cold,
        !cold && uri is Some ==> (r matches BootMode::Warm { uri: u } && u@ == uri->0@),
        !cold && uri is None ==> r == BootMode::Scan,
{
    if cold {
        BootMode::Cold
    } else {
        match uri {
            Some(u) => BootMode::Warm { uri: u },
            None => BootMode::Scan,
        }
    }
}

/// After a scan: warm boot through the first Crazyflie found; a scan that
/// found none is an error.
pub fn boot_from_scan(found: &Vec<String>) -> (r: Result<BootMode, String>)
    ensures
        found.len() > 0 ==> (r matches Ok(BootMode::Warm { uri }) && uri@ == found@[0]@),
        found.len() == 0 ==> (r matches Err(m) && m@ == "No Crazyflie found on radio"@),
{
    match reset_target(found) {
        Ok(uri) => Ok(BootMode::Warm { uri }),
        Err(m) => Err(m),
    }
}

/// Flash address where the firmware starts: the first flash page times the
/// page size, as the bootloader reports them.
pub fn flash_start_address(flash_start: u16, page_size: u16) -> (a: u32)
    ensures
        a == flash_start as int * page_size as int,
{
    assert(flash_start as int * page_size as int <= 0xffff * 0xffff) by (nonlinear_arith)
        requires
            flash_start <= 0xffff,
            page_size <= 0xffff,
    ;
    flash_start as u32 * page_size as u32
}

/// Flashing progress in percent (rounded down) after `written` of `total`
/// bytes.
pub fn progress_percent(written: usize, total: usize) -> (p: usize)
    requires
        total > 0,
        written * 100 <= usize::MAX,
    ensures
        p == (written * 100) / (total as int),
{
    written * 100 / total
}

/// The flash progress message: "progress <percent>%".
pub fn progress_message(written: usize, total: usize) -> (s: String)
    requires
        total > 0,
        written * 100 <= usize::MAX,
    ensures
        s@ == "progress "@ + decimal(((written * 100) / (total as int)) as nat) + "%"@,
{
    let mut s = String::from_str("progress ");
    push_decimal(&mut s, progress_percent(written, total) as u64);
    s.append("%");
    s
}

/// The message once the firmware file is read: "loaded <n> bytes from <path>".
pub fn loaded_message(length: usize, path: &str) -> (s: String)
    ensures
        s@ == "loaded "@ + decimal(length as nat) + " bytes from "@ + path@,
{
    let mut s = String::from_str("loaded ");
    push_decimal(&mut s, length as u64);
    s.append(" bytes from ");
    s.append(path);
    s
}

/// The Crazyflie that a reset addresses: the first one a scan found; a scan
/// that found none is an error.
pub fn reset_target(found: &Vec<String>) -> (r: Result<String, String>)
    ensures
        found.len() > 0 ==> (r matches Ok(u) && u@ == found@[0]@),
        found.len() == 0 ==> (r matches Err(m) && m@ == "No Crazyflie found on radio"@),
{
    if found.len() == 0 {
        Err(String::from_str("No Crazyflie found on radio"))
    } else {
        Ok(found[0].clone())
    }
}

/// Law: disabling safelink keeps the URI as it is and appends one
/// separator and "safelink=0"; the separator is '&' exactly when the URI
/// already has a query ('?'), and '?' otherwise.
pub proof fn law_safelink_uri_appends_query(uri: Seq<char>)
    ensures
        safelink_disabled_uri_spec(uri).subrange(0, uri.len() as int) == uri,
        safelink_disabled_uri_spec(uri).len() == uri.len() + 11,
        safelink_disabled_uri_spec(uri)[uri.len() as int] == (if uri.contains('?') {
            '&'
        } else {
            '?'
        }),
        safelink_disabled_uri_spec(uri).subrange(uri.len() + 1 as int, uri.len() + 11 as int) == "safelink=0"@,
{
    reveal_strlit("&");
    reveal_strlit("?");
    reveal_strlit("safelink=0");
    let r = safelink_disabled_uri_spec(uri);
    let sep = if uri.contains('?') {
        "&"@
    } else {
        "?"@
    };
    assert(r == uri + sep + "safelink=0"@);
    assert(r.subrange(0, uri.len() as int) =~= uri);
    assert(r.subrange(uri.len() + 1 as int, uri.len() + 11 as int) =~= "safelink=0"@);
}

} // verus!
