//! Headset models, the session with one connected headset, and the decoder of
//! its status reports.

use crate::lang::{system_lang, text, translate, Key, Lang};
use crate::text::{decimal, decimal_string};
use vstd::prelude::*;
use vstd::string::StringExecFns;

verus! {

/// The USB vendor id of SteelSeries, shared by every model.
pub const STEELSERIES_VENDOR_ID: u16 = 0x1038;

/// How long a read may wait for the headset's answer, in milliseconds.
pub const READ_TIMEOUT_MS: i32 = 100;

/// The largest read buffer that a model may ask for.
pub const MAX_READ_BUF_SIZE: usize = 128;

/// What the headset says of its power source.
#[derive(Clone, Copy, Debug, PartialEq, Eq, Structural)]
pub enum ChargingState {
    Disconnected,
    Charging,
    Connected,
}

impl ChargingState {
    /// The byte that stands for the state in a report that encodes it directly.
    pub open spec fn spec_code(self) -> u8 {
        match self {
            ChargingState::Disconnected => 0,
            ChargingState::Charging => 1,
            ChargingState::Connected => 3,
        }
    }

    /// The state that a byte stands for in a report that encodes it directly,
    /// if it stands for one.
    pub open spec fn spec_from_code(code: u8) -> Option<ChargingState> {
        if code == 0 {
            Some(ChargingState::Disconnected)
        } else if code == 1 {
            Some(ChargingState::Charging)
        } else if code == 3 {
            Some(ChargingState::Connected)
        } else {
            None
        }
    }

    #[verifier::when_used_as_spec(spec_code)]
    pub fn code(self) -> (r: u8)
        ensures
            r == self.spec_code(),
    {
        match self {
            ChargingState::Disconnected => 0,
            ChargingState::Charging => 1,
            ChargingState::Connected => 3,
        }
    }

    #[verifier::when_used_as_spec(spec_from_code)]
    pub fn from_code(code: u8) -> (r: Option<ChargingState>)
        ensures
            r == Self::spec_from_code(code),
    {
        if code == 0 {
            Some(ChargingState::Disconnected)
        } else if code == 1 {
            Some(ChargingState::Charging)
        } else if code == 3 {
            Some(ChargingState::Connected)
        } else {
            None
        }
    }

    /// Every state is found again from its code, and a byte that stands for a
    /// state is the code of that state.
    pub proof fn lemma_code_round_trip(state: ChargingState, code: u8)
        ensures
            Self::spec_from_code(state.spec_code()) == Some(state),
            Self::spec_from_code(code) matches Some(s) ==> s.spec_code() == code,
    {
    }
}

/// One headset model: how to ask it for its status and where the answer
/// holds what.
#[derive(Clone, Copy, Debug)]
pub struct HeadphoneModel {
    pub name: &'static str,
    pub product_id: u16,
    /// Magic bytes that make the device output battery information
    pub write_bytes: [u8; 2],
    /// The HID interface that answers; `None` accepts any.
    pub interface_num: Option<i32>,
    pub battery_percent_idx: usize,
    pub charging_status_idx: Option<usize>,
    /// Where the report says whether the headset is switched on, for models
    /// whose charging byte alone cannot tell.
    pub connected_status_idx: Option<usize>,
    /// Usage page first, then id
    pub usage_page_and_id: Option<(u16, u16)>,
    /// Size of buffer to send when reading battery status
    pub read_buf_size: usize,
    /// The lowest and the highest raw battery byte, both included.
    pub battery_range: (u8, u8),
}

/// Why an exchange with the headset brought no report.
#[derive(Clone, Copy, Debug, PartialEq, Eq, Structural)]
pub enum DeviceIoError {
    /// The device could not be opened.
    Open,
    /// The query could not be written.
    Write,
    /// The timed read failed.
    Read,
}

/// The byte of a report at `idx`. A report is read into a zeroed buffer of
/// `read_buf_size` bytes, so a place that the read did not fill, or that lies
/// beyond the buffer, holds zero.
pub open spec fn report_byte(model: HeadphoneModel, report: Seq<u8>, idx: int) -> u8 {
    if 0 <= idx < report.len() && idx < model.read_buf_size {
        report[idx]
    } else {
        0
    }
}

/// Whether the headset answered at all: a report that is empty or starts with
/// a zero byte is no answer.
pub open spec fn answered(model: HeadphoneModel, report: Seq<u8>) -> bool {
    report_byte(model, report, 0) != 0
}

/// Whether a raw battery byte lies within the model's range.
pub open spec fn battery_in_range(model: HeadphoneModel, raw: u8) -> bool {
    model.battery_range.0 <= raw <= model.battery_range.1
}

/// Something in a report that the decoder passes over. None of them is an
/// error: the state that was held stays, and the caller may want to log it.
#[derive(Clone, Copy, Debug, PartialEq, Eq, Structural)]
pub enum ReportAnomaly {
    /// The read brought no bytes.
    NoData,
    /// The report starts with a zero byte.
    InvalidBytes,
    /// The report starts with a byte that is neither of the model's query
    /// bytes. It is decoded all the same.
    UnexpectedReportNumber(u8),
    /// The battery byte lies outside the model's range.
    BatteryOutOfRange(u8),
    /// The charging byte stands for no state.
    ChargeStateUnreadable(u8),
}

/// What is out of the ordinary in a report, in the order in which the decoder
/// meets it. A report that is no answer has that one anomaly; an answer may
/// have up to three.
pub open spec fn report_anomalies(model: HeadphoneModel, report: Seq<u8>) -> Seq<ReportAnomaly> {
    if report.len() == 0 {
        seq![ReportAnomaly::NoData]
    } else if !answered(model, report) {
        seq![ReportAnomaly::InvalidBytes]
    } else {
        let first = report_byte(model, report, 0);
        let raw = report_byte(model, report, model.battery_percent_idx as int);
        let number = if first == model.write_bytes[0] || first == model.write_bytes[1] {
            Seq::<ReportAnomaly>::empty()
        } else {
            seq![ReportAnomaly::UnexpectedReportNumber(first)]
        };
        let battery = if battery_in_range(model, raw) {
            Seq::<ReportAnomaly>::empty()
        } else {
            seq![ReportAnomaly::BatteryOutOfRange(raw)]
        };
        let charging = match model.charging_status_idx {
            Some(charging_idx) if reported_charging(model, report).is_none() => seq![
                ReportAnomaly::ChargeStateUnreadable(
                    report_byte(model, report, charging_idx as int),
                ),
            ],
            _ => Seq::<ReportAnomaly>::empty(),
        };
        number + battery + charging
    }
}

/// The battery byte to hold after an answer: the reported one if it is within
/// the model's range, else the one held before.
pub open spec fn decoded_battery(model: HeadphoneModel, held: u8, report: Seq<u8>) -> u8 {
    let raw = report_byte(model, report, model.battery_percent_idx as int);
    if battery_in_range(model, raw) {
        raw
    } else {
        held
    }
}

/// What the charging byte means for a model with a separate byte for
/// "switched on", once that byte says the headset is on.
pub open spec fn charging_while_on(code: u8) -> Option<ChargingState> {
    if code == 0 {
        Some(ChargingState::Connected)
    } else if code == 1 || code == 2 {
        Some(ChargingState::Charging)
    } else {
        None
    }
}

/// What an answer says of the charging state, if it says anything readable.
/// A model without a charging byte says nothing. With a byte for "switched
/// on" that is not 1 the headset is disconnected, whatever the charging byte.
pub open spec fn reported_charging(model: HeadphoneModel, report: Seq<u8>) -> Option<
    ChargingState,
> {
    match model.charging_status_idx {
        None => None,
        Some(charging_idx) => {
            let code = report_byte(model, report, charging_idx as int);
            match model.connected_status_idx {
                Some(connected_idx) => {
                    if report_byte(model, report, connected_idx as int) == 1 {
                        charging_while_on(code)
                    } else {
                        Some(ChargingState::Disconnected)
                    }
                },
                None => ChargingState::spec_from_code(code),
            }
        },
    }
}

/// The charging state to hold after an answer: the reported one if the report
/// is readable, else the one held before.
pub open spec fn decoded_charging(
    model: HeadphoneModel,
    held: Option<ChargingState>,
    report: Seq<u8>,
) -> Option<ChargingState> {
    match reported_charging(model, report) {
        Some(state) => Some(state),
        None => held,
    }
}

/// Whether an answer says that the headset is switched off: the model has a
/// charging byte and a byte for "switched on", and that byte is not 1.
pub open spec fn says_switched_off(model: HeadphoneModel, report: Seq<u8>) -> bool {
    &&& answered(model, report)
    &&& model.charging_status_idx.is_some()
    &&& model.connected_status_idx matches Some(connected_idx)
    &&& report_byte(model, report, connected_idx as int) != 1
}

/// The battery byte to hold after a read brought `report`.
pub open spec fn next_battery(model: HeadphoneModel, held: u8, report: Seq<u8>) -> u8 {
    if answered(model, report) {
        decoded_battery(model, held, report)
    } else {
        held
    }
}

/// The charging state to hold after a read brought `report`.
pub open spec fn next_charging(
    model: HeadphoneModel,
    held: Option<ChargingState>,
    report: Seq<u8>,
) -> Option<ChargingState> {
    if answered(model, report) {
        decoded_charging(model, held, report)
    } else {
        held
    }
}

/// A raw battery byte brought within `min..=max`: a byte outside is taken
/// as the nearer bound.
pub open spec fn clamped_battery(raw: u8, min: u8, max: u8) -> u8 {
    if raw < min {
        min
    } else if raw > max {
        max
    } else {
        raw
    }
}

/// The battery level in percent: the place of the raw byte within
/// `min..=max`, a byte outside taken as the nearer bound, times 100 and
/// rounded to the nearest integer, a half upwards. A range without width has
/// no scale, and gives 0.
pub open spec fn battery_percent(raw: u8, min: u8, max: u8) -> int {
    if min < max {
        (200 * (clamped_battery(raw, min, max) - min) + (max - min)) / (2 * (max - min))
    } else {
        0
    }
}

/// Whether `percent` is the integer nearest to the exact percentage of a raw
/// byte within a range that has a width: the exact value lies no more than
/// a half below `percent` and less than a half above it.
pub open spec fn is_nearest_percent(percent: int, raw: u8, min: u8, max: u8) -> bool {
    2 * percent * (max - min) <= 200 * (clamped_battery(raw, min, max) - min) + (max - min) < 2 * (
    percent + 1) * (max - min)
}

impl HeadphoneModel {
    /// Whether the model is sound: its read buffer is no larger than the
    /// largest, and every place that the model names lies within it.
    pub open spec fn valid(self) -> bool {
        &&& self.read_buf_size <= MAX_READ_BUF_SIZE
        &&& self.battery_percent_idx < self.read_buf_size
        &&& self.charging_status_idx matches Some(idx) ==> idx < self.read_buf_size
        &&& self.connected_status_idx matches Some(idx) ==> idx < self.read_buf_size
    }

    /// Whether the model is sound. A model from outside the catalog is to be
    /// held to this before it is used.
    pub fn is_valid(&self) -> (r: bool)
        ensures
            r == self.valid(),
    {
        if self.read_buf_size > MAX_READ_BUF_SIZE {
            return false;
        }
        if self.battery_percent_idx >= self.read_buf_size {
            return false;
        }
        match self.charging_status_idx {
            Some(idx) => {
                if idx >= self.read_buf_size {
                    return false;
                }
            },
            None => {},
        }
        match self.connected_status_idx {
            Some(idx) => idx < self.read_buf_size,
            None => true,
        }
    }

    /// The byte of `report` at `idx`, zero where the report has none.
    pub fn report_byte(&self, report: &[u8], idx: usize) -> (r: u8)
        ensures
            r == report_byte(*self, report@, idx as int),
    {
        if idx < report.len() && idx < self.read_buf_size {
            report[idx]
        } else {
            0
        }
    }

    /// Whether `raw` is a battery byte that this model can report.
    pub fn battery_in_range(&self, raw: u8) -> (r: bool)
        ensures
            r == battery_in_range(*self, raw),
    {
        self.battery_range.0 <= raw && raw <= self.battery_range.1
    }

    /// What is out of the ordinary in `report`, for the caller to log. What
    /// the report does to a session is for [`Headphone::update`] to say.
    pub fn report_anomalies(&self, report: &[u8]) -> (r: Vec<ReportAnomaly>)
        ensures
            r@ == report_anomalies(*self, report@),
    {
        let mut r: Vec<ReportAnomaly> = Vec::new();
        if report.len() == 0 {
            r.push(ReportAnomaly::NoData);
            return r;
        }
        let first: u8 = self.report_byte(report, 0);
        if first == 0 {
            r.push(ReportAnomaly::InvalidBytes);
            return r;
        }
        if first != self.write_bytes[0] && first != self.write_bytes[1] {
            r.push(ReportAnomaly::UnexpectedReportNumber(first));
        }
        let raw: u8 = self.report_byte(report, self.battery_percent_idx);
        if !self.battery_in_range(raw) {
            r.push(ReportAnomaly::BatteryOutOfRange(raw));
        }
        match self.charging_status_idx {
            Some(charging_idx) => {
                if self.reported_charging(report).is_none() {
                    r.push(
                        ReportAnomaly::ChargeStateUnreadable(self.report_byte(report, charging_idx)),
                    );
                }
            },
            None => {},
        }
        assert(r@ =~= report_anomalies(*self, report@));
        r
    }

    /// The charging state that `report` tells of, or `None` where the model
    /// reports none or the report is unreadable.
    pub fn reported_charging(&self, report: &[u8]) -> (r: Option<ChargingState>)
        ensures
            r == reported_charging(*self, report@),
    {
        match self.charging_status_idx {
            None => None,
            Some(charging_idx) => {
                let code: u8 = self.report_byte(report, charging_idx);
                match self.connected_status_idx {
                    Some(connected_idx) => {
                        if self.report_byte(report, connected_idx) == 1 {
                            if code == 0 {
                                Some(ChargingState::Connected)
                            } else if code == 1 || code == 2 {
                                Some(ChargingState::Charging)
                            } else {
                                None
                            }
                        } else {
                            Some(ChargingState::Disconnected)
                        }
                    },
                    None => ChargingState::from_code(code),
                }
            },
        }
    }
}

/// What is shown of a charging state in `lang`: the word for charging or
/// for disconnected, and nothing for a headset that runs on its battery.
pub open spec fn status_words(state: ChargingState, lang: Lang) -> Seq<char> {
    match state {
        ChargingState::Charging => text(lang, Key::device_charging),
        ChargingState::Connected => Seq::empty(),
        ChargingState::Disconnected => text(lang, Key::device_disconnected),
    }
}

/// How a headset is shown in `lang`: its name, a colon, the battery level in
/// percent and the word for "remaining"; and behind a space what is shown of
/// the charging state, where one is known.
pub open spec fn headphone_label(headphone: Headphone, lang: Lang) -> Seq<char> {
    let head = headphone.name@ + seq![':', ' '] + decimal(
        battery_percent(
            headphone.battery_state,
            headphone.model.battery_range.0,
            headphone.model.battery_range.1,
        ) as nat,
    ) + seq!['%', ' '] + text(lang, Key::battery_remaining);
    match headphone.charging_state {
        Some(state) => head + seq![' '] + status_words(state, lang),
        None => head,
    }
}

/// The session with one connected headset: its model, where the device is
/// found, and the last state that a report told of.
#[derive(Debug)]
pub struct Headphone {
    /// The path under which the device is opened again for each poll.
    pub path: Vec<u8>,
    pub model: HeadphoneModel,
    /// The name to show for the headset.
    pub name: String,
    /// The last raw battery byte that lay within the model's range.
    pub battery_state: u8,
    /// The last charging state that a report told of.
    pub charging_state: Option<ChargingState>,
}

impl Headphone {
    /// Whether two sessions are with the same headset: model, name and path
    /// agree. The held state may differ.
    pub open spec fn same_device(&self, other: &Headphone) -> bool {
        &&& self.model == other.model
        &&& self.name@ == other.name@
        &&& self.path@ == other.path@
    }

    /// Maps to an int between 0 and 100
    pub fn battery_percentage(&self) -> (r: u8)
        ensures
            r == battery_percent(
                self.battery_state,
                self.model.battery_range.0,
                self.model.battery_range.1,
            ),
            self.model.battery_range.0 < self.model.battery_range.1 ==> is_nearest_percent(
                r as int,
                self.battery_state,
                self.model.battery_range.0,
                self.model.battery_range.1,
            ),
            r <= 100,
    {
        let (min, max) = self.model.battery_range;
        if min < max {
            let clamped: u8 = if self.battery_state < min {
                min
            } else if self.battery_state > max {
                max
            } else {
                self.battery_state
            };
            let above: u32 = (clamped - min) as u32;
            let width: u32 = (max - min) as u32;
            proof {
                lemma_rounded_percent_bound(above as int, width as int);
                lemma_battery_percent_nearest(self.battery_state, min, max);
            }
            let percent: u32 = (200 * above + width) / (2 * width);
            percent as u8
        } else {
            0
        }
    }

    /// What is shown of the charging state in `lang`, where one is known.
    pub fn status_text_in(&self, lang: Lang) -> (r: Option<String>)
        ensures
            match self.charging_state {
                Some(state) => r matches Some(words) && words@ == status_words(state, lang),
                None => r.is_none(),
            },
    {
        match self.charging_state {
            Some(ChargingState::Charging) => Some(
                String::from_str(translate(lang, Key::device_charging)),
            ),
            Some(ChargingState::Connected) => Some(String::new()),
            Some(ChargingState::Disconnected) => Some(
                String::from_str(translate(lang, Key::device_disconnected)),
            ),
            None => None,
        }
    }

    /// What is shown of the charging state in the language of this system,
    /// where one is known. Which language that is depends on the machine;
    /// [`Headphone::status_text_in`] says what is returned in each.
    pub fn status_text(&self) -> (r: Option<String>)
        ensures
            match self.charging_state {
                Some(state) => r matches Some(words) && (words@ == status_words(state, Lang::En)
                    || words@ == status_words(state, Lang::Fi)),
                None => r.is_none(),
            },
    {
        self.status_text_in(system_lang())
    }

    /// How the headset is shown in `lang`.
    pub fn to_string_in(&self, lang: Lang) -> (r: String)
        ensures
            r@ == headphone_label(*self, lang),
    {
        proof {
            reveal_strlit(": ");
            reveal_strlit("% ");
            reveal_strlit(" ");
        }
        let percent: u8 = self.battery_percentage();
        let level = decimal_string(percent as usize);
        let mut r = self.name.clone();
        r.append(": ");
        r.append(level.as_str());
        r.append("% ");
        r.append(translate(lang, Key::battery_remaining));
        let ghost head = r@;
        assert(head =~= self.name@ + seq![':', ' '] + decimal(percent as nat) + seq!['%', ' ']
            + text(lang, Key::battery_remaining));
        match self.status_text_in(lang) {
            Some(words) => {
                r.append(" ");
                r.append(words.as_str());
                assert(r@ =~= head + seq![' '] + words@);
            },
            None => {},
        }
        r
    }

    /// How the headset is shown in the language of this system. Which
    /// language that is depends on the machine; [`Headphone::to_string_in`]
    /// says what is returned in each.
    pub fn to_string(&self) -> (r: String)
        ensures
            r@ == headphone_label(*self, Lang::En) || r@ == headphone_label(*self, Lang::Fi),
    {
        self.to_string_in(system_lang())
    }

    /// Takes in the report that a poll brought. A report that is no answer
    /// changes nothing. Of an answer, a battery byte within the model's range
    /// and a readable charging state replace what was held; anything else is
    /// passed over and the held value stays.
    ///
    /// Returns whether the held state changed.
    pub fn apply_report(&mut self, report: &[u8]) -> (changed: bool)
        ensures
            final(self).same_device(old(self)),
            final(self).battery_state == next_battery(
                old(self).model,
                old(self).battery_state,
                report@,
            ),
            final(self).charging_state == next_charging(
                old(self).model,
                old(self).charging_state,
                report@,
            ),
            changed <==> (final(self).battery_state != old(self).battery_state
                || final(self).charging_state != old(self).charging_state),
            !answered(old(self).model, report@) ==> !changed,
    {
        if self.model.report_byte(report, 0) == 0 {
            return false;
        }
        let old_battery: u8 = self.battery_state;
        let old_charging: Option<ChargingState> = self.charging_state;

        let raw: u8 = self.model.report_byte(report, self.model.battery_percent_idx);
        if self.model.battery_in_range(raw) {
            self.battery_state = raw;
        }
        match self.model.reported_charging(report) {
            Some(state) => {
                self.charging_state = Some(state);
            },
            None => {},
        }
        self.battery_state != old_battery || self.charging_state != old_charging
    }

    /// One poll of the headset. `exchange` is what opening the device, writing
    /// the model's query and the timed read came to: the bytes read, or the
    /// step that failed.
    ///
    /// A failed exchange is handed back as the error and leaves the state as
    /// it was; the caller drops the session. A report, empty or not, is never
    /// an error: it is taken in as [`Headphone::apply_report`] says, and the
    /// result tells whether the held state changed.
    pub fn update(&mut self, exchange: Result<&[u8], DeviceIoError>) -> (r: Result<
        bool,
        DeviceIoError,
    >)
        ensures
            final(self).same_device(old(self)),
            match exchange {
                Err(e) => {
                    &&& r == Err::<bool, DeviceIoError>(e)
                    &&& final(self).battery_state == old(self).battery_state
                    &&& final(self).charging_state == old(self).charging_state
                },
                Ok(report) => {
                    &&& final(self).battery_state == next_battery(
                        old(self).model,
                        old(self).battery_state,
                        report@,
                    )
                    &&& final(self).charging_state == next_charging(
                        old(self).model,
                        old(self).charging_state,
                        report@,
                    )
                    &&& r == Ok::<bool, DeviceIoError>(
                        final(self).battery_state != old(self).battery_state
                            || final(self).charging_state != old(self).charging_state,
                    )
                    &&& !answered(old(self).model, report@) ==> {
                        &&& r == Ok::<bool, DeviceIoError>(false)
                        &&& final(self).battery_state == old(self).battery_state
                        &&& final(self).charging_state == old(self).charging_state
                    }
                    &&& !battery_in_range(
                        old(self).model,
                        report_byte(
                            old(self).model,
                            report@,
                            old(self).model.battery_percent_idx as int,
                        ),
                    ) ==> final(self).battery_state == old(self).battery_state
                    &&& says_switched_off(old(self).model, report@)
                        ==> final(self).charging_state == Some(ChargingState::Disconnected)
                },
            },
    {
        match exchange {
            Err(e) => Err(e),
            Ok(report) => Ok(self.apply_report(report)),
        }
    }
}

/// What the enumeration tells of one HID device.
#[derive(Debug)]
pub struct HidDeviceInfo {
    pub vendor_id: u16,
    pub product_id: u16,
    pub interface_number: i32,
    pub usage_page: u16,
    pub usage: u16,
    /// The path under which the system opens the device.
    pub path: Vec<u8>,
}

/// The two ways in which a device is held against a model. Every device is
/// tried by usage before any is tried by interface.
#[derive(Clone, Copy, Debug, PartialEq, Eq, Structural)]
pub enum MatchPass {
    /// The device's usage page and usage id are those that the model names.
    Usage,
    /// The device's interface number is the one that the model names, or the
    /// model names none.
    Interface,
}

/// A place in the search: a pass, a device and a model, by their indices.
/// The search goes through the passes, within a pass through the devices, and
/// for each device through the models.
#[derive(Clone, Copy, Debug, PartialEq, Eq, Structural)]
pub struct MatchCursor {
    pub pass: MatchPass,
    pub device: usize,
    pub model: usize,
}

impl MatchCursor {
    /// Whether the search comes to `self` before it comes to `other`.
    pub open spec fn precedes(self, other: MatchCursor) -> bool {
        if self.pass != other.pass {
            self.pass == MatchPass::Usage
        } else if self.device != other.device {
            self.device < other.device
        } else {
            self.model < other.model
        }
    }

    /// The place just before `self` in the search: the same device with the
    /// model before.
    pub open spec fn before(self) -> MatchCursor {
        MatchCursor { pass: self.pass, device: self.device, model: (self.model - 1) as usize }
    }

    /// Where every search begins: the first model against the first device, by
    /// usage.
    pub fn start() -> (r: MatchCursor)
        ensures
            r == (MatchCursor { pass: MatchPass::Usage, device: 0, model: 0 }),
            forall|c: MatchCursor| !c.precedes(r),
    {
        MatchCursor { pass: MatchPass::Usage, device: 0, model: 0 }
    }
}

/// Whether a device is one of the model's, as far as `pass` looks: a
/// SteelSeries device with the model's product id, and with the usage or the
/// interface that the model names.
pub open spec fn device_fits(pass: MatchPass, device: HidDeviceInfo, model: HeadphoneModel) -> bool {
    &&& device.vendor_id == STEELSERIES_VENDOR_ID
    &&& device.product_id == model.product_id
    &&& match pass {
        MatchPass::Usage => model.usage_page_and_id == Some((device.usage_page, device.usage)),
        MatchPass::Interface => match model.interface_num {
            Some(n) => n == device.interface_number,
            None => true,
        },
    }
}

/// Whether the search finds a match at `at`.
pub open spec fn is_match(
    models: Seq<HeadphoneModel>,
    devices: Seq<HidDeviceInfo>,
    at: MatchCursor,
) -> bool {
    &&& at.device < devices.len()
    &&& at.model < models.len()
    &&& device_fits(at.pass, devices[at.device as int], models[at.model as int])
}

/// Whether `at` is the first match that a search from `from` comes to.
pub open spec fn first_match_from(
    models: Seq<HeadphoneModel>,
    devices: Seq<HidDeviceInfo>,
    from: MatchCursor,
    at: MatchCursor,
) -> bool {
    &&& is_match(models, devices, at)
    &&& !at.precedes(from)
    &&& forall|c: MatchCursor|
        !c.precedes(from) && c.precedes(at) ==> !#[trigger] is_match(models, devices, c)
}

/// Whether a search from `from` finds nothing.
pub open spec fn no_match_from(
    models: Seq<HeadphoneModel>,
    devices: Seq<HidDeviceInfo>,
    from: MatchCursor,
) -> bool {
    forall|c: MatchCursor| !c.precedes(from) ==> !#[trigger] is_match(models, devices, c)
}

/// Whether `headphone` is a fresh session with `device` as a `model`: nothing
/// is known of its state yet.
pub open spec fn fresh_session(
    headphone: Headphone,
    model: HeadphoneModel,
    device: HidDeviceInfo,
) -> bool {
    &&& headphone.path@ == device.path@
    &&& headphone.model == model
    &&& headphone.name@ == model.name@
    &&& headphone.battery_state == 0
    &&& headphone.charging_state.is_none()
}

/// Whether `device` fits `model` as far as `pass` looks.
pub fn device_fits_model(pass: MatchPass, device: &HidDeviceInfo, model: &HeadphoneModel) -> (r:
    bool)
    ensures
        r == device_fits(pass, *device, *model),
{
    if device.vendor_id != STEELSERIES_VENDOR_ID || device.product_id != model.product_id {
        return false;
    }
    match pass {
        MatchPass::Usage => match model.usage_page_and_id {
            Some((page, id)) => device.usage_page == page && device.usage == id,
            None => false,
        },
        MatchPass::Interface => match model.interface_num {
            Some(n) => n == device.interface_number,
            None => true,
        },
    }
}

/// The first match at or after `from`, or `None` if the search finds nothing
/// from there on.
pub fn next_match(models: &Vec<HeadphoneModel>, devices: &Vec<HidDeviceInfo>, from: MatchCursor) -> (r:
    Option<MatchCursor>)
    ensures
        match r {
            Some(at) => first_match_from(models@, devices@, from, at),
            None => no_match_from(models@, devices@, from),
        },
{
    let mut cur: MatchCursor = from;
    loop
        invariant
            !cur.precedes(from),
            forall|c: MatchCursor|
                !c.precedes(from) && c.precedes(cur) ==> !#[trigger] is_match(
                    models@,
                    devices@,
                    c,
                ),
        decreases
            (if cur.pass == MatchPass::Usage { 1int } else { 0int }),
            (if cur.device < devices.len() { devices.len() - cur.device } else { 0 }),
            (if cur.model < models.len() { models.len() - cur.model } else { 0 }),
    {
        if cur.device >= devices.len() {
            match cur.pass {
                MatchPass::Usage => {
                    cur = MatchCursor { pass: MatchPass::Interface, device: 0, model: 0 };
                },
                MatchPass::Interface => {
                    return None;
                },
            }
        } else if cur.model >= models.len() {
            cur = MatchCursor { pass: cur.pass, device: cur.device + 1, model: 0 };
        } else if device_fits_model(cur.pass, &devices[cur.device], &models[cur.model]) {
            return Some(cur);
        } else {
            cur = MatchCursor { pass: cur.pass, device: cur.device, model: cur.model + 1 };
        }
    }
}

/// Begins the session with `device` as a `model`.
pub fn connect_device(model: &HeadphoneModel, device: &HidDeviceInfo) -> (r: Headphone)
    ensures
        fresh_session(r, *model, *device),
{
    Headphone {
        path: device.path.clone(),
        model: *model,
        name: model.name.to_owned(),
        battery_state: 0,
        charging_state: None,
    }
}

/// Searches for a headset among the enumerated devices, from `from` on:
/// first for a device that fits a model by usage, then for one that fits by
/// interface. Returns a fresh session with the first match, and the place
/// from which to search on should that device not open; `None` if there is
/// no match.
pub fn find_headphone(
    models: &Vec<HeadphoneModel>,
    devices: &Vec<HidDeviceInfo>,
    from: MatchCursor,
) -> (r: Option<(Headphone, MatchCursor)>)
    ensures
        match r {
            Some((headphone, next)) => {
                &&& next.model > 0
                &&& first_match_from(models@, devices@, from, next.before())
                &&& fresh_session(
                    headphone,
                    models@[next.model - 1],
                    devices@[next.device as int],
                )
            },
            None => no_match_from(models@, devices@, from),
        },
{
    match next_match(models, devices, from) {
        Some(at) => {
            let count: usize = models.len();
            assert(is_match(models@, devices@, at) && at.model < count);
            let headphone = connect_device(&models[at.model], &devices[at.device]);
            let next = MatchCursor { pass: at.pass, device: at.device, model: at.model + 1 };
            assert(next.before() == at);
            Some((headphone, next))
        },
        None => None,
    }
}

/// The battery level never falls as the raw byte rises, and stays within
/// 0 and 100. Where the range has a width, its lower bound is 0 percent and
/// its upper bound 100 percent.
pub proof fn lemma_battery_percent_scale(a: u8, b: u8, min: u8, max: u8)
    requires
        a <= b,
    ensures
        0 <= battery_percent(a, min, max) <= battery_percent(b, min, max) <= 100,
        min < max ==> battery_percent(min, min, max) == 0,
        min < max ==> battery_percent(max, min, max) == 100,
{
    if min < max {
        let width = max - min;
        let ca = clamped_battery(a, min, max);
        let cb = clamped_battery(b, min, max);
        lemma_rounded_percent_bound(ca - min, width);
        lemma_rounded_percent_bound(cb - min, width);
        lemma_rounded_percent_ordered(ca - min, cb - min, width);
        assert((200 * 0 + width) / (2 * width) == 0 && (200 * width + width) / (2 * width) == 100)
            by (nonlinear_arith)
            requires
                0 < width,
        ;
    }
}

/// The battery level is the integer nearest to the exact percentage, and
/// the only one: the exact value lies no more than a half below it and less
/// than a half above it.
pub proof fn lemma_battery_percent_nearest(raw: u8, min: u8, max: u8)
    requires
        min < max,
    ensures
        is_nearest_percent(battery_percent(raw, min, max), raw, min, max),
        forall|p: int| is_nearest_percent(p, raw, min, max) ==> p == battery_percent(raw, min, max),
{
    let above = clamped_battery(raw, min, max) - min;
    let width = max - min;
    let percent = (200 * above + width) / (2 * width);
    assert(2 * percent * width <= 200 * above + width < 2 * (percent + 1) * width)
        by (nonlinear_arith)
        requires
            0 <= above,
            0 < width,
            percent == (200 * above + width) / (2 * width),
    ;
    assert forall|p: int| is_nearest_percent(p, raw, min, max) implies p == percent by {
        assert(p == percent) by (nonlinear_arith)
            requires
                0 < width,
                2 * percent * width <= 200 * above + width < 2 * (percent + 1) * width,
                2 * p * width <= 200 * above + width < 2 * (p + 1) * width,
        ;
    }
}

/// A search that starts at the beginning comes to a match by interface only
/// where no device fits any model by usage.
pub proof fn lemma_usage_before_interface(
    models: Seq<HeadphoneModel>,
    devices: Seq<HidDeviceInfo>,
    at: MatchCursor,
    other: MatchCursor,
)
    requires
        first_match_from(
            models,
            devices,
            MatchCursor { pass: MatchPass::Usage, device: 0, model: 0 },
            at,
        ),
        at.pass == MatchPass::Interface,
        other.pass == MatchPass::Usage,
    ensures
        !is_match(models, devices, other),
{
    assert(other.precedes(at));
}

/// A search that goes on behind a match skips nothing: every match that
/// comes after `at` comes at or after the place that follows it, so the
/// searches from there find, one by one, every match in its turn.
pub proof fn lemma_search_goes_on(
    models: Seq<HeadphoneModel>,
    devices: Seq<HidDeviceInfo>,
    at: MatchCursor,
    next: MatchCursor,
    later: MatchCursor,
)
    requires
        next.model > 0,
        next.before() == at,
        at.precedes(later),
    ensures
        !later.precedes(next),
        is_match(models, devices, later) && (forall|c: MatchCursor|
            at.precedes(c) && c.precedes(later) ==> !#[trigger] is_match(models, devices, c))
            ==> first_match_from(models, devices, next, later),
{
}

/// A battery byte outside the model's range is passed over, whatever was
/// held, and is named among the anomalies of the report.
pub proof fn lemma_battery_out_of_range_is_passed_over(
    model: HeadphoneModel,
    held: u8,
    report: Seq<u8>,
)
    requires
        !battery_in_range(model, report_byte(model, report, model.battery_percent_idx as int)),
    ensures
        next_battery(model, held, report) == held,
        answered(model, report) ==> report_anomalies(model, report).contains(
            ReportAnomaly::BatteryOutOfRange(
                report_byte(model, report, model.battery_percent_idx as int),
            ),
        ),
{
    if answered(model, report) {
        let first = report_byte(model, report, 0);
        let expected = first == model.write_bytes[0] || first == model.write_bytes[1];
        let at: int = if expected {
            0
        } else {
            1
        };
        assert(report_anomalies(model, report)[at] == ReportAnomaly::BatteryOutOfRange(
            report_byte(model, report, model.battery_percent_idx as int),
        ));
    }
}

/// A report read a second time changes nothing: what it had to say was taken
/// in the first time. So of two polls that bring the same report, the second
/// tells of no change.
pub proof fn lemma_repeated_report_changes_nothing(
    model: HeadphoneModel,
    battery: u8,
    charging: Option<ChargingState>,
    report: Seq<u8>,
)
    ensures
        next_battery(model, next_battery(model, battery, report), report) == next_battery(
            model,
            battery,
            report,
        ),
        next_charging(model, next_charging(model, charging, report), report) == next_charging(
            model,
            charging,
            report,
        ),
{
}

proof fn lemma_rounded_percent_ordered(a: int, b: int, width: int)
    requires
        0 <= a <= b,
        0 < width,
    ensures
        (200 * a + width) / (2 * width) <= (200 * b + width) / (2 * width),
{
    assert((200 * a + width) / (2 * width) <= (200 * b + width) / (2 * width))
        by (nonlinear_arith)
        requires
            0 <= a <= b,
            0 < width,
    ;
}

/// The rounded quotient of `100 * above / width` lies within 0 and 100
/// where `above` is at most `width`.
proof fn lemma_rounded_percent_bound(above: int, width: int)
    requires
        0 <= above <= width <= 255,
        0 < width,
    ensures
        0 <= (200 * above + width) / (2 * width) <= 100,
{
    assert(0 <= (200 * above + width) / (2 * width) <= 100) by (nonlinear_arith)
        requires
            0 <= above <= width,
            0 < width,
    ;
}

} // verus!
