//! Polling readers and the retry policy around them.
//!
//! A reader of this family is driven one scan at a time: wake the tag,
//! select it, halt it. The select step of a real reader sometimes
//! fails with a transient incomplete-frame error although a tag is in
//! range; the policy retries the select a bounded number of times with
//! a short delay before giving up. The functions here take the
//! reader's answers as values and decide everything around them, so
//! the decisions hold for any reader; the runtime interleaves the
//! actual hardware calls and delays.

use crate::service::{RfidScanResult, RfidScannerStatus};
use crate::text::{format_uid, uid_text};
use vstd::prelude::*;
use vstd::string::*;

verus! {

/// Select retries after a transient error before the scan fails.
pub const MAX_SELECT_RETRIES: u64 = 5;

/// Delay between select retries, in milliseconds.
pub const RETRY_DELAY_MS: u64 = 10;

/// Pause after a poll that saw no card, in milliseconds.
pub const SCAN_INTERVAL_MS: u64 = 20;

/// A one-scan-at-a-time reader.
pub trait RfidReader {
    /// One scan attempt: a tag's UID, no tag in range, or a hardware
    /// error.
    fn scan(&mut self) -> Result<Option<String>, String>;

    /// Reset the reader.
    fn reset(&mut self) -> Result<(), String>;

    /// Name of the reader family.
    fn reader_type(&self) -> &'static str;
}

/// How one select step of the reader went.
#[derive(Debug)]
pub enum SelectOutcome {
    /// The tag was selected; these are its UID bytes.
    Uid(Vec<u8>),
    /// A transient protocol error (an incomplete frame): the tag is
    /// probably still in range and the select is worth retrying.
    Transient,
    /// A real select failure.
    Failed,
}

/// Why a scan returned no UID.
#[derive(Clone, Copy, Debug, PartialEq, Eq, Structural)]
pub enum ScanFailure {
    /// No card answered the wake-up.
    NoCard,
    /// The select failed with a non-transient error.
    SelectFailed,
    /// Every select retry failed.
    RetriesExhausted,
    /// The reader is busy with another transaction.
    Busy,
}

/// UID bytes of the first successful select in a run of retries.
pub open spec fn first_uid(outcomes: Seq<SelectOutcome>) -> Option<Seq<u8>>
    decreases outcomes.len(),
{
    if outcomes.len() == 0 {
        None
    } else {
        match outcomes[0] {
            SelectOutcome::Uid(bytes) => Some(bytes@),
            _ => first_uid(outcomes.skip(1)),
        }
    }
}

/// What a whole scan yields from the select answers: `outcomes[0]` is
/// the first select; when it is transient, up to [`MAX_SELECT_RETRIES`]
/// further answers are consumed, and the first successful one wins.
pub open spec fn select_resolution(outcomes: Seq<SelectOutcome>) -> Result<Seq<u8>, ScanFailure> {
    match outcomes[0] {
        SelectOutcome::Uid(bytes) => Ok(bytes@),
        SelectOutcome::Failed => Err(ScanFailure::SelectFailed),
        SelectOutcome::Transient => match first_uid(
            outcomes.subrange(1, 1 + MAX_SELECT_RETRIES as int),
        ) {
            Some(bytes) => Ok(bytes),
            None => Err(ScanFailure::RetriesExhausted),
        },
    }
}

/// Resolve one scan from the reader's select answers, formatting the
/// UID that won. The caller supplies one answer for the first select
/// and one for each possible retry.
pub fn select_card_with_retry(outcomes: &Vec<SelectOutcome>) -> (r: Result<String, ScanFailure>)
    requires
        outcomes@.len() >= 1 + MAX_SELECT_RETRIES,
    ensures
        match select_resolution(outcomes@) {
            Ok(bytes) => r matches Ok(s) && s@ == uid_text(bytes),
            Err(f) => r == Result::<String, ScanFailure>::Err(f),
        },
{
    match &outcomes[0] {
        SelectOutcome::Uid(bytes) => Ok(format_uid(bytes.as_slice())),
        SelectOutcome::Failed => Err(ScanFailure::SelectFailed),
        SelectOutcome::Transient => {
            let ghost retries = outcomes@.subrange(1, 1 + MAX_SELECT_RETRIES as int);
            proof {
                assert(retries.skip(0) =~= retries);
            }
            let mut k: usize = 1;
            while k < 1 + MAX_SELECT_RETRIES as usize
                invariant
                    1 <= k <= 1 + MAX_SELECT_RETRIES,
                    outcomes@.len() >= 1 + MAX_SELECT_RETRIES,
                    outcomes@[0] is Transient,
                    retries == outcomes@.subrange(1, 1 + MAX_SELECT_RETRIES as int),
                    first_uid(retries.skip(k - 1)) == first_uid(retries),
                decreases 1 + MAX_SELECT_RETRIES - k,
            {
                proof {
                    assert(retries.skip(k - 1)[0] == outcomes@[k as int]);
                }
                match &outcomes[k] {
                    SelectOutcome::Uid(bytes) => {
                        proof {
                            assert(first_uid(retries.skip(k - 1)) == Some(bytes@));
                        }
                        return Ok(format_uid(bytes.as_slice()));
                    },
                    _ => {
                        proof {
                            assert(retries.skip(k - 1).skip(1) =~= retries.skip(k as int));
                        }
                    },
                }
                k = k + 1;
            }
            proof {
                assert(retries.skip(k - 1) =~= Seq::<SelectOutcome>::empty());
            }
            Err(ScanFailure::RetriesExhausted)
        },
    }
}

/// A reader that answers a transient incomplete frame on the first
/// select and a UID on the retry yields that UID from a single scan,
/// not an error.
pub proof fn lemma_transient_then_success(outcomes: Seq<SelectOutcome>, bytes: Vec<u8>)
    requires
        outcomes.len() >= 1 + MAX_SELECT_RETRIES,
        outcomes[0] is Transient,
        outcomes[1] == SelectOutcome::Uid(bytes),
    ensures
        select_resolution(outcomes) == Result::<Seq<u8>, ScanFailure>::Ok(bytes@),
{
    let retries = outcomes.subrange(1, 1 + MAX_SELECT_RETRIES as int);
    assert(retries[0] == outcomes[1]);
    assert(first_uid(retries) == Some(bytes@));
}

/// How one whole poll iteration of the continuous loop went.
#[derive(Debug)]
pub enum PollAttempt {
    /// No card answered.
    NoCard,
    /// A card was selected; these are its UID bytes.
    Selected(Vec<u8>),
    /// A card answered but the select failed.
    SelectFailed,
}

/// UID bytes of the first successful poll in a run of attempts.
pub open spec fn first_selected(attempts: Seq<PollAttempt>) -> Option<Seq<u8>>
    decreases attempts.len(),
{
    if attempts.len() == 0 {
        None
    } else {
        match attempts[0] {
            PollAttempt::Selected(bytes) => Some(bytes@),
            _ => first_selected(attempts.skip(1)),
        }
    }
}

/// Resolve a bounded polling window from its attempts: the first
/// successful selection wins, formatted; a window with none yields
/// nothing, which the runtime reports as a scan timeout.
pub fn resolve_poll_window(attempts: &Vec<PollAttempt>) -> (r: Option<String>)
    ensures
        match first_selected(attempts@) {
            Some(bytes) => r matches Some(s) && s@ == uid_text(bytes),
            None => r is None,
        },
{
    let n = attempts.len();
    proof {
        assert(attempts@.skip(0) =~= attempts@);
    }
    let mut k: usize = 0;
    while k < n
        invariant
            k <= n,
            n == attempts@.len(),
            first_selected(attempts@.skip(k as int)) == first_selected(attempts@),
        decreases n - k,
    {
        proof {
            assert(attempts@.skip(k as int)[0] == attempts@[k as int]);
        }
        match &attempts[k] {
            PollAttempt::Selected(bytes) => {
                proof {
                    assert(first_selected(attempts@.skip(k as int)) == Some(bytes@));
                }
                return Some(format_uid(bytes.as_slice()));
            },
            _ => {
                proof {
                    assert(attempts@.skip(k as int).skip(1) =~= attempts@.skip(k + 1));
                }
            },
        }
        k = k + 1;
    }
    proof {
        assert(attempts@.skip(n as int) =~= Seq::<PollAttempt>::empty());
    }
    None
}

/// Shape a one-shot scan outcome into the structured result the
/// command boundary returns: always a result, success exactly when a
/// UID is present.
pub fn scan_result_of(outcome: Result<String, String>) -> (r: RfidScanResult)
    ensures
        match outcome {
            Ok(tag) => r.success && (r.tag_id matches Some(t) && t@ == tag@) && r.error is None,
            Err(msg) => !r.success && r.tag_id is None && (r.error matches Some(e) && e@ == msg@),
        },
{
    match outcome {
        Ok(tag) => RfidScanResult { success: true, tag_id: Some(tag), error: None },
        Err(msg) => RfidScanResult { success: false, tag_id: None, error: Some(msg) },
    }
}

/// Shape the hardware probe into the reported reader status: available
/// exactly when both the SPI device and the GPIO controller are, with
/// the first missing piece named.
pub fn scanner_status(spi_available: bool, gpio_available: bool, platform: String) -> (r:
    RfidScannerStatus)
    ensures
        r.is_available == (spi_available && gpio_available),
        r.platform == platform,
        !spi_available ==> (r.last_error matches Some(e) && e@
            == "SPI device /dev/spidev0.0 not found"@),
        spi_available && !gpio_available ==> (r.last_error matches Some(e) && e@
            == "GPIO access failed"@),
        spi_available && gpio_available ==> r.last_error is None,
{
    RfidScannerStatus {
        is_available: spi_available && gpio_available,
        platform,
        last_error: if !spi_available {
            Some("SPI device /dev/spidev0.0 not found".to_owned())
        } else if !gpio_available {
            Some("GPIO access failed".to_owned())
        } else {
            None
        },
    }
}

/// A deterministic reader driven by a script of answers, for running
/// the kiosk without hardware. Each scan consumes the next entry; an
/// exhausted script answers that no card is in range.
pub struct ScriptedReader {
    script: Vec<ScriptedAnswer>,
    position: usize,
}

/// One scripted answer of a [`ScriptedReader`].
#[derive(Debug)]
pub enum ScriptedAnswer {
    /// A tag with this UID is read.
    Tag(String),
    /// No card is in range.
    Empty,
    /// The reader fails with this message.
    Failure(String),
}

impl ScriptedReader {
    /// The answers not yet consumed.
    pub closed spec fn remaining(&self) -> Seq<ScriptedAnswer> {
        self.script@.skip(self.position as int)
    }

    /// Well-formedness: the cursor stays within the script.
    pub closed spec fn wf(&self) -> bool {
        self.position <= self.script@.len()
    }

    /// A reader that will answer with the given script, in order.
    pub fn new(script: Vec<ScriptedAnswer>) -> (r: ScriptedReader)
        ensures
            r.wf(),
            r.remaining() == script@,
    {
        let r = ScriptedReader { script, position: 0 };
        proof {
            assert(r.remaining() =~= r.script@);
        }
        r
    }

    /// Consume and answer the next script entry; an exhausted script
    /// reports no card.
    pub fn scan_scripted(&mut self) -> (r: Result<Option<String>, String>)
        requires
            old(self).wf(),
        ensures
            final(self).wf(),
            old(self).remaining().len() == 0 ==> (r matches Ok(t) && t is None) && *final(self)
                == *old(self),
            old(self).remaining().len() > 0 ==> final(self).remaining() == old(
                self,
            ).remaining().skip(1) && match old(self).remaining()[0] {
                ScriptedAnswer::Tag(uid) => r matches Ok(t) && t matches Some(u) && u@ == uid@,
                ScriptedAnswer::Empty => r matches Ok(t) && t is None,
                ScriptedAnswer::Failure(msg) => r matches Err(e) && e@ == msg@,
            },
    {
        if self.position >= self.script.len() {
            proof {
                assert(self.remaining() =~= Seq::<ScriptedAnswer>::empty());
            }
            return Ok(None);
        }
        let answer = &self.script[self.position];
        let ghost before = self.remaining();
        proof {
            assert(before[0] == self.script@[self.position as int]);
        }
        let result = match answer {
            ScriptedAnswer::Tag(uid) => Ok(Some(uid.clone())),
            ScriptedAnswer::Empty => Ok(None),
            ScriptedAnswer::Failure(msg) => Err(msg.clone()),
        };
        self.position = self.position + 1;
        proof {
            assert(self.remaining() =~= before.skip(1));
        }
        result
    }
}

impl RfidReader for ScriptedReader {
    fn scan(&mut self) -> Result<Option<String>, String> {
        if self.position > self.script.len() {
            self.position = self.script.len();
        }
        self.scan_scripted()
    }

    fn reset(&mut self) -> Result<(), String> {
        Ok(())
    }

    fn reader_type(&self) -> &'static str {
        "Scripted"
    }
}

/// The simulated hardware-format tags of the development platform.
pub open spec fn mock_tag_text(i: int) -> Seq<char> {
    if i == 0 {
        "04:D6:94:82:97:6A:80"@
    } else if i == 1 {
        "04:A7:B3:C2:D1:E0:F5"@
    } else if i == 2 {
        "04:12:34:56:78:9A:BC"@
    } else if i == 3 {
        "04:FE:DC:BA:98:76:54"@
    } else {
        "04:11:22:33:44:55:66"@
    }
}

/// One simulated hardware-format tag.
fn mock_tag_str(i: u8) -> (s: &'static str)
    requires
        i < 5,
    ensures
        s@ == mock_tag_text(i as int),
{
    match i {
        0 => "04:D6:94:82:97:6A:80",
        1 => "04:A7:B3:C2:D1:E0:F5",
        2 => "04:12:34:56:78:9A:BC",
        3 => "04:FE:DC:BA:98:76:54",
        _ => "04:11:22:33:44:55:66",
    }
}

/// What a simulated scan reports, given the random draws the runtime
/// made: while the cooldown after the previous read is active, the
/// same tag is usually still in range (nine draws out of ten);
/// otherwise one draw in twenty simulates a timeout, and the rest pick
/// one of the simulated tags.
pub fn mock_scan_decision(
    cooldown_active: bool,
    last_tag: Option<&str>,
    same_tag_roll: u8,
    error_roll: u8,
    tag_roll: u8,
) -> (r: Result<String, String>)
    ensures
        ({
            let repeat = cooldown_active && last_tag is Some && same_tag_roll % 10 != 0;
            if repeat {
                r matches Ok(t) && (match last_tag {
                    Some(prev) => t@ == prev@,
                    None => false,
                })
            } else if error_roll % 20 == 0 {
                r matches Err(e) && e@ == "Scan timeout - no card detected"@
            } else {
                r matches Ok(t) && t@ == mock_tag_text((tag_roll % 5) as int)
            }
        }),
{
    if cooldown_active {
        if let Some(prev) = last_tag {
            if same_tag_roll % 10 != 0 {
                return Ok(prev.to_owned());
            }
        }
    }
    if error_roll % 20 == 0 {
        return Err("Scan timeout - no card detected".to_owned());
    }
    Ok(mock_tag_str(tag_roll % 5).to_owned())
}

/// The schedule of the simulated event reader: whether this cycle
/// emits a tag, which of its three tags it is, and whether this cycle
/// also simulates a reader error.
pub fn mock_cycle(counter: u64) -> (r: (bool, u64, bool))
    ensures
        r.0 == (counter % 3 == 0),
        r.1 == (counter / 3) % 3,
        r.2 == (counter % 10 == 0),
{
    (counter % 3 == 0, (counter / 3) % 3, counter % 10 == 0)
}

/// One simulated tag of the event reader.
pub fn mock_dev_tag(i: u64) -> (s: &'static str)
    requires
        i < 3,
    ensures
        i == 0 ==> s@ == "1234567890"@,
        i == 1 ==> s@ == "0987654321"@,
        i == 2 ==> s@ == "5556667777"@,
{
    match i {
        0 => "1234567890",
        1 => "0987654321",
        _ => "5556667777",
    }
}

} // verus!
