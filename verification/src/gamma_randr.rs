//! The RandR backend's own rules: which protocol versions it accepts, what it
//! keeps of each output when it starts, which ramps it writes for a colour
//! setting, and which it writes to put everything back.
//!
//! Talking to the display server is left to the caller. It hands in what the
//! server replied and carries out the writes that come back.

use vstd::prelude::*;
use crate::colorramp::{
    appliable, check_setting, fill_channel, linear, linear_ramp, refusal, tinted, white_point,
    GammaRamps, RampError, WhitePointTable,
};
use crate::number::{micro_text, nat_text, render_int, render_micro, render_nat, whole_text};
use crate::transition::ColorSetting;
use vstd::string::StringExecFns;

verus! {

/// Major version of the RandR protocol that the backend speaks.
pub const RANDR_MAJOR_VERSION: u32 = 1;

/// Lowest minor version of the RandR protocol that the backend accepts.
pub const RANDR_MINOR_VERSION: u32 = 3;

/// Why a connection to the display server was lost or never made.
#[derive(Clone, Copy, Debug, PartialEq, Eq, Structural)]
pub enum ConnError {
    /// A socket, pipe or other stream failed.
    Connection,
    /// The server lacks an extension.
    ClosedExtNotSupported,
    /// Memory ran out.
    ClosedMemInsufficient,
    /// A request was longer than the server accepts.
    ClosedReqLenExceed,
    /// The display string could not be read.
    ClosedParseErr,
    /// The server has no screen that matches the display.
    ClosedInvalidScreen,
    /// A file descriptor could not be passed.
    ClosedFdPassingFailed,
}

/// What can go wrong in the RandR backend.
#[derive(Clone, Copy, Debug, PartialEq, Eq, Structural)]
pub enum RandrError {
    /// The server answered a request with the error of this code.
    Generic(u8),
    /// The connection failed.
    Conn(ConnError),
    /// The server speaks this version of RandR, which is not accepted.
    UnsupportedVersion(u32, u32),
    /// The colour setting cannot be turned into a ramp.
    Setting(RampError),
}

/// What the server says of one output's gamma: its ramps and their size.
#[derive(Clone, Debug, PartialEq, Eq)]
pub struct CrtcGamma {
    pub crtc: u32,
    pub size: u16,
    pub ramps: GammaRamps,
}

/// What the backend keeps of one output: its ramps as they were at the start.
#[derive(Clone, Debug, PartialEq, Eq)]
pub struct Crtc {
    pub id: u32,
    pub ramp_size: u32,
    pub saved_ramps: GammaRamps,
}

/// One request to the server: set the ramps of this output.
#[derive(Clone, Debug, PartialEq, Eq)]
pub struct RampWrite {
    pub crtc: u32,
    pub ramps: GammaRamps,
}

/// State of the RandR backend.
pub struct RandrState {
    screen_num: i32,
    window_dummy: u32,
    crtcs: Vec<Crtc>,
}

/// Three ramps as sequences of levels.
#[verifier::ext_equal]
pub struct RampsView {
    pub red: Seq<u16>,
    pub green: Seq<u16>,
    pub blue: Seq<u16>,
}

/// An output's record as plain values.
#[verifier::ext_equal]
pub struct CrtcView {
    pub id: u32,
    pub ramp_size: u32,
    pub saved: RampsView,
}

/// A write as plain values.
#[verifier::ext_equal]
pub struct WriteView {
    pub crtc: u32,
    pub ramps: RampsView,
}

impl View for GammaRamps {
    type V = RampsView;

    open spec fn view(&self) -> RampsView {
        RampsView { red: self.red@, green: self.green@, blue: self.blue@ }
    }
}

impl View for Crtc {
    type V = CrtcView;

    open spec fn view(&self) -> CrtcView {
        CrtcView { id: self.id, ramp_size: self.ramp_size, saved: self.saved_ramps@ }
    }
}

impl View for RampWrite {
    type V = WriteView;

    open spec fn view(&self) -> WriteView {
        WriteView { crtc: self.crtc, ramps: self.ramps@ }
    }
}

impl View for RandrState {
    type V = Seq<CrtcView>;

    closed spec fn view(&self) -> Seq<CrtcView> {
        Seq::new(self.crtcs@.len(), |i: int| self.crtcs@[i]@)
    }
}

/// The record that is kept of what the server said of one output.
pub open spec fn record_of(gamma: CrtcGamma) -> CrtcView {
    CrtcView { id: gamma.crtc, ramp_size: gamma.size as u32, saved: gamma.ramps@ }
}

/// One channel of the ramps that a tint starts from: the captured ramp,
/// or, where none of the output's size was captured, the straight ramp.
pub open spec fn base_channel(saved: Seq<u16>, ramp_size: u32) -> Seq<u16> {
    if saved.len() == ramp_size {
        saved
    } else {
        linear(ramp_size as int)
    }
}

/// The ramps that show `setting` on the output `crtc`: the output's captured
/// ramps, each level multiplied by the white point of the setting's
/// temperature, by the gamma correction of its channel and by the
/// brightness.
pub open spec fn ramps_for(crtc: CrtcView, setting: ColorSetting, table: Seq<crate::transition::Rgb>)
    -> RampsView {
    let white = white_point(table, setting.temp as int);
    RampsView {
        red: tinted(
            base_channel(crtc.saved.red, crtc.ramp_size),
            white.red as int,
            setting.gamma.red as int,
            setting.brightness as int,
        ),
        green: tinted(
            base_channel(crtc.saved.green, crtc.ramp_size),
            white.green as int,
            setting.gamma.green as int,
            setting.brightness as int,
        ),
        blue: tinted(
            base_channel(crtc.saved.blue, crtc.ramp_size),
            white.blue as int,
            setting.gamma.blue as int,
            setting.brightness as int,
        ),
    }
}

/// The writes that show `setting` on every output, in the outputs' order.
pub open spec fn temperature_writes(
    crtcs: Seq<CrtcView>,
    setting: ColorSetting,
    table: Seq<crate::transition::Rgb>,
) -> Seq<WriteView> {
    Seq::new(
        crtcs.len(),
        |i: int| WriteView { crtc: crtcs[i].id, ramps: ramps_for(crtcs[i], setting, table) },
    )
}

/// The writes that put every output back, in the outputs' order: each
/// output's captured ramps as they are.
pub open spec fn restore_writes(crtcs: Seq<CrtcView>) -> Seq<WriteView> {
    Seq::new(crtcs.len(), |i: int| WriteView { crtc: crtcs[i].id, ramps: crtcs[i].saved })
}

/// Whether the server's version of RandR is accepted: the major version is
/// the backend's own, and the minor version is not below the lowest.
pub open spec fn version_accepted(major: u32, minor: u32) -> bool {
    major == RANDR_MAJOR_VERSION && minor >= RANDR_MINOR_VERSION
}

/// A display: the ramps that each of its outputs shows.
pub type Display = Map<u32, RampsView>;

/// The display after one write.
pub open spec fn after_write(display: Display, write: WriteView) -> Display {
    display.insert(write.crtc, write.ramps)
}

/// The display after a sequence of writes, carried out in order.
pub open spec fn after_writes(display: Display, writes: Seq<WriteView>) -> Display
    decreases writes.len(),
{
    if writes.len() == 0 {
        display
    } else {
        after_writes(after_write(display, writes[0]), writes.drop_first())
    }
}

/// The display after several calls' worth of writes.
pub open spec fn after_batches(display: Display, batches: Seq<Seq<WriteView>>) -> Display
    decreases batches.len(),
{
    if batches.len() == 0 {
        display
    } else {
        after_batches(after_writes(display, batches[0]), batches.drop_first())
    }
}

/// Whether `crtcs` holds what `display` shows: every record is of an output
/// of the display and keeps that output's ramps.
pub open spec fn captured_from(crtcs: Seq<CrtcView>, display: Display) -> bool {
    forall|i: int|
        0 <= i < crtcs.len() ==> display.contains_key(#[trigger] crtcs[i].id)
            && display[crtcs[i].id] == crtcs[i].saved
}

/// Whether some record in `crtcs` is of the output `id`.
pub open spec fn records(crtcs: Seq<CrtcView>, id: u32) -> bool {
    exists|i: int| 0 <= i < crtcs.len() && #[trigger] crtcs[i].id == id
}

/// Whether every write goes to an output that `crtcs` has a record of.
pub open spec fn within(writes: Seq<WriteView>, crtcs: Seq<CrtcView>) -> bool {
    forall|i: int| 0 <= i < writes.len() ==> records(crtcs, #[trigger] writes[i].crtc)
}

/// The text that a failed connection is shown as.
pub open spec fn conn_text(error: ConnError) -> Seq<char> {
    match error {
        ConnError::Connection => "xcb connection errors because of socket, pipe or other stream errors"@,
        ConnError::ClosedExtNotSupported => "ClosedExtNotSupported"@,
        ConnError::ClosedMemInsufficient => "ClosedMemInsufficient"@,
        ConnError::ClosedReqLenExceed => "ClosedReqLenExceed"@,
        ConnError::ClosedParseErr => "ClosedParseErr"@,
        ConnError::ClosedInvalidScreen => "ClosedInvalidScreen"@,
        ConnError::ClosedFdPassingFailed => "ClosedFdPassingFailed"@,
    }
}

/// The text that a setting that cannot be applied is shown as.
pub open spec fn ramp_error_text(error: RampError) -> Seq<char> {
    match error {
        RampError::UnsupportedTemperature(temp) => "Unsupported colour temperature ("@ + whole_text(
            temp as int,
        ) + "K)"@,
        RampError::GammaOutOfRange(gamma) => "Gamma value out of range ("@ + micro_text(
            gamma as int,
        ) + ")"@,
        RampError::BrightnessNotPositive(brightness) => "Brightness not positive ("@ + micro_text(
            brightness as int,
        ) + ")"@,
    }
}

/// The text that an error of the backend is shown as.
pub open spec fn randr_error_text(error: RandrError) -> Seq<char> {
    match error {
        RandrError::Generic(code) => "randr error: "@ + nat_text(code as nat),
        RandrError::Conn(e) => conn_text(e),
        RandrError::UnsupportedVersion(major, minor) => "Unsupported RandR version ("@ + nat_text(
            major as nat,
        ) + "."@ + nat_text(minor as nat) + ")"@,
        RandrError::Setting(e) => ramp_error_text(e),
    }
}

impl ConnError {
    /// The text that the failed connection is shown as.
    pub fn message(&self) -> (out: &'static str)
        ensures
            out@ == conn_text(*self),
    {
        match self {
            ConnError::Connection => "xcb connection errors because of socket, pipe or other stream errors",
            ConnError::ClosedExtNotSupported => "ClosedExtNotSupported",
            ConnError::ClosedMemInsufficient => "ClosedMemInsufficient",
            ConnError::ClosedReqLenExceed => "ClosedReqLenExceed",
            ConnError::ClosedParseErr => "ClosedParseErr",
            ConnError::ClosedInvalidScreen => "ClosedInvalidScreen",
            ConnError::ClosedFdPassingFailed => "ClosedFdPassingFailed",
        }
    }
}

/// The text that a setting that cannot be applied is shown as.
pub fn ramp_error_message(error: &RampError) -> (out: String)
    ensures
        out@ == ramp_error_text(*error),
{
    match error {
        RampError::UnsupportedTemperature(temp) => {
            let mut text = String::from_str("Unsupported colour temperature (");
            text.append(render_int(*temp as i64).as_str());
            text.append("K)");
            text
        },
        RampError::GammaOutOfRange(gamma) => {
            let mut text = String::from_str("Gamma value out of range (");
            text.append(render_micro(*gamma).as_str());
            text.append(")");
            text
        },
        RampError::BrightnessNotPositive(brightness) => {
            let mut text = String::from_str("Brightness not positive (");
            text.append(render_micro(*brightness).as_str());
            text.append(")");
            text
        },
    }
}

impl RandrError {
    /// The text that the error is shown as.
    pub fn message(&self) -> (out: String)
        ensures
            out@ == randr_error_text(*self),
    {
        match self {
            RandrError::Generic(code) => {
                let mut text = String::from_str("randr error: ");
                text.append(render_nat(*code as u64).as_str());
                text
            },
            RandrError::Conn(e) => String::from_str(e.message()),
            RandrError::UnsupportedVersion(major, minor) => {
                let mut text = String::from_str("Unsupported RandR version (");
                text.append(render_nat(*major as u64).as_str());
                text.append(".");
                text.append(render_nat(*minor as u64).as_str());
                text.append(")");
                text
            },
            RandrError::Setting(e) => ramp_error_message(e),
        }
    }

    /// A short name for every error of this type.
    pub fn description(&self) -> (out: &'static str)
        ensures
            out@ == "RandR error"@,
    {
        "RandR error"
    }

    /// The error for a request that the server answered with an error.
    pub fn generic(error_code: u8) -> (out: RandrError)
        ensures
            out == RandrError::Generic(error_code),
    {
        RandrError::Generic(error_code)
    }

    /// The error for a connection that failed.
    pub fn conn(error: ConnError) -> (out: RandrError)
        ensures
            out == RandrError::Conn(error),
    {
        RandrError::Conn(error)
    }

    /// The error for a version of RandR that is not accepted.
    pub fn unsupported_version(major: u32, minor: u32) -> (out: RandrError)
        ensures
            out == RandrError::UnsupportedVersion(major, minor),
    {
        RandrError::UnsupportedVersion(major, minor)
    }
}

/// Checks the version of RandR that the server answered with. It is refused
/// exactly when the major version differs from the backend's or the minor
/// version lies below the lowest accepted; the error names the version.
pub fn query_version(major_version: u32, minor_version: u32) -> (out: Result<(), RandrError>)
    ensures
        out.is_ok() == version_accepted(major_version, minor_version),
        out.is_err() ==> out == Err::<(), RandrError>(
            RandrError::UnsupportedVersion(major_version, minor_version),
        ),
{
    if major_version != RANDR_MAJOR_VERSION || minor_version < RANDR_MINOR_VERSION {
        Err(RandrError::unsupported_version(major_version, minor_version))
    } else {
        Ok(())
    }
}

/// A copy of a ramp.
pub fn copy_levels(levels: &Vec<u16>) -> (out: Vec<u16>)
    ensures
        out@ == levels@,
{
    let mut copy: Vec<u16> = Vec::new();
    let mut i: usize = 0;
    while i < levels.len()
        invariant
            i <= levels.len(),
            copy@ == levels@.subrange(0, i as int),
        decreases levels.len() - i,
    {
        copy.push(levels[i]);
        assert(copy@ =~= levels@.subrange(0, i + 1));
        i = i + 1;
    }
    assert(levels@.subrange(0, levels@.len() as int) =~= levels@);
    copy
}

/// The ramp that a tint of one channel starts from.
fn base_levels(saved: &Vec<u16>, ramp_size: u32) -> (out: Vec<u16>)
    ensures
        out@ == base_channel(saved@, ramp_size),
{
    if saved.len() == ramp_size as usize {
        copy_levels(saved)
    } else {
        linear_ramp(ramp_size)
    }
}

impl GammaRamps {
    /// A copy of the three ramps.
    pub fn duplicate(&self) -> (out: GammaRamps)
        ensures
            out@ == self@,
    {
        GammaRamps {
            red: copy_levels(&self.red),
            green: copy_levels(&self.green),
            blue: copy_levels(&self.blue),
        }
    }
}

impl RandrState {
    /// The backend's state once the connection stands: the screen and the
    /// window it works through, and no output recorded yet.
    pub fn init(screen_num: i32, window_dummy: u32) -> (out: RandrState)
        ensures
            out@.len() == 0,
            out.screen() == screen_num,
            out.window() == window_dummy,
    {
        RandrState { screen_num, window_dummy, crtcs: Vec::new() }
    }

    /// Number of the screen that the backend works on.
    pub closed spec fn screen(&self) -> i32 {
        self.screen_num
    }

    /// The window that the backend works through.
    pub closed spec fn window(&self) -> u32 {
        self.window_dummy
    }

    /// Number of the screen that the backend works on.
    pub fn screen_num(&self) -> (out: i32)
        ensures
            out == self.screen(),
    {
        self.screen_num
    }

    /// The window that the backend works through.
    pub fn window_dummy(&self) -> (out: u32)
        ensures
            out == self.window(),
    {
        self.window_dummy
    }

    /// Number of outputs on record.
    pub fn crtc_count(&self) -> (out: usize)
        ensures
            out == self@.len(),
    {
        self.crtcs.len()
    }

    /// The record of the output at `index`.
    pub fn crtc(&self, index: usize) -> (out: &Crtc)
        requires
            index < self@.len(),
        ensures
            out@ == self@[index as int],
    {
        &self.crtcs[index]
    }

    /// Records every output of the screen: its size and its ramps as the
    /// server gave them, in the server's order. Earlier records are dropped.
    pub fn start(&mut self, gammas: &Vec<CrtcGamma>)
        ensures
            final(self)@.len() == gammas@.len(),
            forall|i: int| 0 <= i < gammas@.len() ==> final(self)@[i] == record_of(gammas@[i]),
            final(self).screen() == old(self).screen(),
            final(self).window() == old(self).window(),
    {
        let mut crtcs: Vec<Crtc> = Vec::new();
        let mut i: usize = 0;
        while i < gammas.len()
            invariant
                i <= gammas.len(),
                crtcs@.len() == i,
                forall|j: int| 0 <= j < i ==> crtcs@[j]@ == record_of(gammas@[j]),
            decreases gammas.len() - i,
        {
            let gamma = &gammas[i];
            crtcs.push(
                Crtc {
                    id: gamma.crtc,
                    ramp_size: gamma.size as u32,
                    saved_ramps: gamma.ramps.duplicate(),
                },
            );
            i = i + 1;
        }
        self.crtcs = crtcs;
    }

    /// The ramps that show `setting` on the output `crtc`. They are derived
    /// from the ramps captured at the start, never from what was written
    /// since. A setting that cannot be applied is refused.
    pub fn set_crtc_temperature(
        &self,
        setting: &ColorSetting,
        crtc: &Crtc,
        table: &WhitePointTable,
    ) -> (out: Result<RampWrite, RandrError>)
        requires
            table.wf(),
        ensures
            out.is_ok() == appliable(*setting),
            out.is_ok() ==> out.unwrap()@ == (WriteView {
                crtc: crtc.id,
                ramps: ramps_for(crtc@, *setting, table@),
            }),
            out.is_err() ==> refusal(*setting).is_some() && out.unwrap_err() == RandrError::Setting(
                refusal(*setting).unwrap(),
            ),
    {
        match check_setting(setting) {
            Err(e) => Err(RandrError::Setting(e)),
            Ok(()) => {
                let white = table.multipliers(setting.temp).unwrap();
                let mut red = base_levels(&crtc.saved_ramps.red, crtc.ramp_size);
                let mut green = base_levels(&crtc.saved_ramps.green, crtc.ramp_size);
                let mut blue = base_levels(&crtc.saved_ramps.blue, crtc.ramp_size);
                fill_channel(&mut red, white.red, setting.gamma.red, setting.brightness);
                fill_channel(&mut green, white.green, setting.gamma.green, setting.brightness);
                fill_channel(&mut blue, white.blue, setting.gamma.blue, setting.brightness);
                Ok(RampWrite { crtc: crtc.id, ramps: GammaRamps { red, green, blue } })
            },
        }
    }

    /// The writes that show `setting` on every recorded output, in the
    /// outputs' order. A setting that cannot be applied is refused and
    /// nothing is to be written. The records stay as they are.
    pub fn set_temperature(&self, setting: &ColorSetting, table: &WhitePointTable) -> (out: Result<
        Vec<RampWrite>,
        RandrError,
    >)
        requires
            table.wf(),
        ensures
            out.is_ok() == appliable(*setting),
            out.is_ok() ==> writes_view(out.unwrap()@) == temperature_writes(
                self@,
                *setting,
                table@,
            ),
            out.is_err() ==> refusal(*setting).is_some() && out.unwrap_err() == RandrError::Setting(
                refusal(*setting).unwrap(),
            ),
    {
        match check_setting(setting) {
            Err(e) => {
                return Err(RandrError::Setting(e));
            },
            Ok(()) => {},
        }
        let mut writes: Vec<RampWrite> = Vec::new();
        let mut i: usize = 0;
        while i < self.crtcs.len()
            invariant
                i <= self.crtcs.len(),
                table.wf(),
                appliable(*setting),
                writes@.len() == i,
                forall|j: int|
                    0 <= j < i ==> writes@[j]@ == (WriteView {
                        crtc: self.crtcs@[j].id,
                        ramps: ramps_for(self.crtcs@[j]@, *setting, table@),
                    }),
            decreases self.crtcs.len() - i,
        {
            let write = self.set_crtc_temperature(setting, &self.crtcs[i], table);
            writes.push(write.unwrap());
            i = i + 1;
        }
        assert(writes_view(writes@) =~= temperature_writes(self@, *setting, table@));
        Ok(writes)
    }

    /// The writes that put every recorded output back: its captured ramps as
    /// they are, in the outputs' order. The records stay as they are, so the
    /// same writes come out however often this is asked.
    pub fn restore(&self) -> (out: Vec<RampWrite>)
        ensures
            writes_view(out@) == restore_writes(self@),
    {
        let mut writes: Vec<RampWrite> = Vec::new();
        let mut i: usize = 0;
        while i < self.crtcs.len()
            invariant
                i <= self.crtcs.len(),
                writes@.len() == i,
                forall|j: int|
                    0 <= j < i ==> writes@[j]@ == (WriteView {
                        crtc: self.crtcs@[j].id,
                        ramps: self.crtcs@[j].saved_ramps@,
                    }),
            decreases self.crtcs.len() - i,
        {
            let crtc = &self.crtcs[i];
            writes.push(RampWrite { crtc: crtc.id, ramps: crtc.saved_ramps.duplicate() });
            i = i + 1;
        }
        assert(writes_view(writes@) =~= restore_writes(self@));
        writes
    }
}

/// A sequence of writes as plain values.
pub open spec fn writes_view(writes: Seq<RampWrite>) -> Seq<WriteView> {
    Seq::new(writes.len(), |i: int| writes[i]@)
}

/// Writes that each go to an output of `target` and carry what `target`
/// shows there turn any display that differs from `target` only at those
/// outputs into `target`.
proof fn lemma_writes_reach(display: Display, writes: Seq<WriteView>, target: Display)
    requires
        display.dom() =~= target.dom(),
        forall|i: int|
            0 <= i < writes.len() ==> target.contains_key(#[trigger] writes[i].crtc)
                && target[writes[i].crtc] == writes[i].ramps,
        forall|id: u32|
            target.contains_key(id) && display[id] != target[id] ==> exists|i: int|
                0 <= i < writes.len() && #[trigger] writes[i].crtc == id,
    ensures
        after_writes(display, writes) == target,
    decreases writes.len(),
{
    if writes.len() == 0 {
        assert(display =~= target);
    } else {
        let first = writes[0];
        let next = after_write(display, first);
        let rest = writes.drop_first();
        assert(next.dom() =~= target.dom());
        assert forall|i: int| 0 <= i < rest.len() implies target.contains_key(
            #[trigger] rest[i].crtc,
        ) && target[rest[i].crtc] == rest[i].ramps by {
            assert(rest[i] == writes[i + 1]);
        }
        assert forall|id: u32|
            target.contains_key(id) && next[id] != target[id] implies exists|i: int|
            0 <= i < rest.len() && #[trigger] rest[i].crtc == id by {
            assert(id != first.crtc);
            assert(display[id] != target[id]);
            let i = choose|i: int| 0 <= i < writes.len() && #[trigger] writes[i].crtc == id;
            assert(i > 0);
            assert(rest[i - 1] == writes[i]);
            assert(rest[i - 1].crtc == id);
        }
        lemma_writes_reach(next, rest, target);
    }
}

/// Writes to recorded outputs change nothing but those outputs: the display
/// keeps its outputs, and every output without a record shows what it did.
proof fn lemma_writes_stay_within(
    before: Display,
    display: Display,
    writes: Seq<WriteView>,
    crtcs: Seq<CrtcView>,
)
    requires
        captured_from(crtcs, before),
        within(writes, crtcs),
        display.dom() =~= before.dom(),
        forall|id: u32| before.contains_key(id) && !records(crtcs, id) ==> display[id] == before[id],
    ensures
        after_writes(display, writes).dom() =~= before.dom(),
        forall|id: u32|
            before.contains_key(id) && !records(crtcs, id) ==> after_writes(display, writes)[id]
                == before[id],
    decreases writes.len(),
{
    if writes.len() > 0 {
        let first = writes[0];
        let next = after_write(display, first);
        let rest = writes.drop_first();
        assert(records(crtcs, first.crtc));
        let k = choose|k: int| 0 <= k < crtcs.len() && #[trigger] crtcs[k].id == first.crtc;
        assert(before.contains_key(crtcs[k].id));
        assert(next.dom() =~= before.dom());
        assert forall|i: int| 0 <= i < rest.len() implies records(crtcs, #[trigger] rest[i].crtc) by {
            assert(rest[i] == writes[i + 1]);
        }
        lemma_writes_stay_within(before, next, rest, crtcs);
    }
}

/// Several calls' worth of writes to recorded outputs change nothing but
/// those outputs.
proof fn lemma_batches_stay_within(
    before: Display,
    display: Display,
    batches: Seq<Seq<WriteView>>,
    crtcs: Seq<CrtcView>,
)
    requires
        captured_from(crtcs, before),
        forall|b: int| 0 <= b < batches.len() ==> within(#[trigger] batches[b], crtcs),
        display.dom() =~= before.dom(),
        forall|id: u32| before.contains_key(id) && !records(crtcs, id) ==> display[id] == before[id],
    ensures
        after_batches(display, batches).dom() =~= before.dom(),
        forall|id: u32|
            before.contains_key(id) && !records(crtcs, id) ==> after_batches(display, batches)[id]
                == before[id],
    decreases batches.len(),
{
    if batches.len() > 0 {
        let rest = batches.drop_first();
        assert(within(batches[0], crtcs));
        lemma_writes_stay_within(before, display, batches[0], crtcs);
        assert forall|b: int| 0 <= b < rest.len() implies within(#[trigger] rest[b], crtcs) by {
            assert(rest[b] == batches[b + 1]);
        }
        lemma_batches_stay_within(before, after_writes(display, batches[0]), rest, crtcs);
    }
}

/// The writes for a colour setting go to recorded outputs only, one to each
/// record.
pub proof fn lemma_temperature_writes_within(
    crtcs: Seq<CrtcView>,
    setting: ColorSetting,
    table: Seq<crate::transition::Rgb>,
)
    ensures
        within(temperature_writes(crtcs, setting, table), crtcs),
        temperature_writes(crtcs, setting, table).len() == crtcs.len(),
{
    let writes = temperature_writes(crtcs, setting, table);
    assert forall|i: int| 0 <= i < writes.len() implies records(crtcs, #[trigger] writes[i].crtc) by {
        assert(crtcs[i].id == writes[i].crtc);
    }
}

/// Restoring gives back the display as it was captured, level for level: if
/// the records hold what `display` showed, then after any number of calls'
/// worth of writes to recorded outputs, the writes of a restore leave every
/// output showing exactly what it showed at the start.
pub proof fn lemma_restore_round_trip(
    display: Display,
    crtcs: Seq<CrtcView>,
    batches: Seq<Seq<WriteView>>,
)
    requires
        captured_from(crtcs, display),
        forall|b: int| 0 <= b < batches.len() ==> within(#[trigger] batches[b], crtcs),
    ensures
        after_writes(after_batches(display, batches), restore_writes(crtcs)) == display,
{
    let changed = after_batches(display, batches);
    let writes = restore_writes(crtcs);
    lemma_batches_stay_within(display, display, batches, crtcs);
    assert forall|id: u32|
        display.contains_key(id) && changed[id] != display[id] implies exists|i: int|
        0 <= i < writes.len() && #[trigger] writes[i].crtc == id by {
        assert(records(crtcs, id));
        let k = choose|k: int| 0 <= k < crtcs.len() && #[trigger] crtcs[k].id == id;
        assert(writes[k].crtc == id);
    }
    assert forall|i: int| 0 <= i < writes.len() implies display.contains_key(
        #[trigger] writes[i].crtc,
    ) && display[writes[i].crtc] == writes[i].ramps by {
        assert(display.contains_key(crtcs[i].id));
    }
    lemma_writes_reach(changed, writes, display);
}

/// The round trip for colour settings: after the writes for any sequence of
/// settings, the writes of a restore leave the display as it was captured.
pub proof fn lemma_restore_after_settings(
    display: Display,
    crtcs: Seq<CrtcView>,
    settings: Seq<ColorSetting>,
    table: Seq<crate::transition::Rgb>,
)
    requires
        captured_from(crtcs, display),
    ensures
        after_writes(
            after_batches(
                display,
                Seq::new(settings.len(), |k: int| temperature_writes(crtcs, settings[k], table)),
            ),
            restore_writes(crtcs),
        ) == display,
{
    let batches = Seq::new(settings.len(), |k: int| temperature_writes(crtcs, settings[k], table));
    assert forall|b: int| 0 <= b < batches.len() implies within(#[trigger] batches[b], crtcs) by {
        lemma_temperature_writes_within(crtcs, settings[b], table);
    }
    lemma_restore_round_trip(display, crtcs, batches);
}

/// A restore is idempotent: carried out twice, its writes leave the display
/// as carried out once.
pub proof fn lemma_restore_idempotent(display: Display, crtcs: Seq<CrtcView>)
    requires
        captured_from(crtcs, display),
    ensures
        after_writes(after_writes(display, restore_writes(crtcs)), restore_writes(crtcs))
            == after_writes(display, restore_writes(crtcs)),
{
    let none: Seq<Seq<WriteView>> = Seq::empty();
    lemma_restore_round_trip(display, crtcs, none);
    assert(after_batches(display, none) == display);
}

} // verus!
