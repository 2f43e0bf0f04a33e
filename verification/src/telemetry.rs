//! The telemetry pipeline: per-interface wireless readings, already fetched
//! from the operating system, are turned into an ordered set of display rows,
//! or into a terminal error signal when the reading set is unusable. The
//! whole computation is pure; the caller performs the actual queries and
//! hands the results in as plain values.

use vstd::prelude::*;
use crate::anonymize::{chars_to_string, get_security_info, spec_anonymize};
use crate::appstate::{AppState, AppStateModel, ProgramState, spec_change_state};

verus! {

/// The access-point record associated with one interface: an optional
/// association status code and an optional signal strength in hundredths of
/// a dBm.
#[derive(Copy, Clone, Debug)]
pub struct BssReading {
    pub status: Option<u32>,
    pub signal: Option<i32>,
}

/// One interface as reported by the wireless query: an optional name, an
/// optional 6-byte hardware address, and the access-point record fetched for
/// it (absent when the interface has none).
#[derive(Debug)]
pub struct InterfaceReading {
    pub name: Option<String>,
    pub mac: Option<[u8; 6]>,
    pub bss: Option<BssReading>,
}

/// Ghost image of an `InterfaceReading`.
pub ghost struct ReadingModel {
    pub name: Option<Seq<char>>,
    pub mac: Option<Seq<u8>>,
    pub bss: Option<BssReading>,
}

impl DeepView for InterfaceReading {
    type V = ReadingModel;

    open spec fn deep_view(&self) -> ReadingModel {
        ReadingModel {
            name: self.name.deep_view(),
            mac: self.mac.deep_view(),
            bss: self.bss,
        }
    }
}

/// The severity class of a signal value, rendered as a color by the
/// display layer.
#[derive(Copy, Clone, Debug, PartialEq, Eq, Structural)]
pub enum Severity {
    Good,
    Warn,
    Bad,
}

impl DeepView for Severity {
    type V = Severity;

    open spec fn deep_view(&self) -> Severity {
        *self
    }
}

/// One row of the monitoring screen: the interface label with its emphasis
/// flag, the signal in whole dBm with its severity class, and the MAC field
/// after the anonymization policy.
#[derive(Debug, PartialEq)]
pub struct DisplayRow {
    pub label: String,
    pub bold: bool,
    pub signal_dbm: i32,
    pub severity: Severity,
    pub mac_text: String,
}

/// Ghost image of a `DisplayRow`.
pub ghost struct RowModel {
    pub label: Seq<char>,
    pub bold: bool,
    pub signal: int,
    pub severity: Severity,
    pub mac: Seq<char>,
}

impl DeepView for DisplayRow {
    type V = RowModel;

    open spec fn deep_view(&self) -> RowModel {
        RowModel {
            label: self.label@,
            bold: self.bold,
            signal: self.signal_dbm as int,
            severity: self.severity,
            mac: self.mac_text@,
        }
    }
}

/// Integer division by 100 that truncates toward zero, as the hardware
/// units (hundredths of a dBm) are reduced to whole dBm.
pub open spec fn trunc_div100(s: int) -> int {
    if s >= 0 {
        s / 100
    } else {
        -((-s) / 100)
    }
}

/// The whole-dBm signal value of a raw reading; an absent reading counts
/// as zero.
pub open spec fn signal_dbm_of(sig: Option<i32>) -> int {
    match sig {
        Some(s) => trunc_div100(s as int),
        None => 0,
    }
}

pub open spec fn magnitude(v: int) -> int {
    if v < 0 {
        -v
    } else {
        v
    }
}

/// The severity bucket of a dBm magnitude: up to 60 is good, 61 to 100 is
/// a warning, anything else (above 100, or a negative input) is bad.
pub open spec fn severity_of(mag: int) -> Severity {
    if 0 <= mag <= 60 {
        Severity::Good
    } else if 61 <= mag <= 100 {
        Severity::Warn
    } else {
        Severity::Bad
    }
}

/// Buckets a signal magnitude into its severity class.
pub fn get_color_for_signal(signal: i32) -> (c: Severity)
    ensures
        c == severity_of(signal as int),
{
    if 0 <= signal && signal <= 60 {
        Severity::Good
    } else if 61 <= signal && signal <= 100 {
        Severity::Warn
    } else {
        Severity::Bad
    }
}

/// Reduces a raw hundredths-of-dBm reading to whole dBm, truncating toward
/// zero as the display does.
fn div100_trunc(s: i32) -> (r: i32)
    ensures
        r as int == trunc_div100(s as int),
        -21474837 < r && r < 21474837,
{
    if s < 0 {
        let a: u64 = (-(s as i64)) as u64;
        let q: u64 = a / 100;
        -(q as i32)
    } else {
        let a: u64 = s as u64;
        let q: u64 = a / 100;
        q as i32
    }
}

/// The character for one hexadecimal digit value, upper case.
pub open spec fn hex_char(v: int) -> char
    recommends
        0 <= v < 16,
{
    if v < 10 {
        (((48 + v) as u8) as char)
    } else {
        (((55 + v) as u8) as char)
    }
}

/// The two hexadecimal digits of one byte, high nibble first.
pub open spec fn hex_pair(b: u8) -> Seq<char> {
    seq![hex_char(b as int / 16), hex_char(b as int % 16)]
}

/// The canonical form of a 6-byte hardware address: upper-case hexadecimal
/// byte pairs separated by colons.
pub open spec fn mac_chars(m: Seq<u8>) -> Seq<char>
    recommends
        m.len() == 6,
{
    hex_pair(m[0]) + seq![':'] + hex_pair(m[1]) + seq![':'] + hex_pair(m[2]) + seq![':']
        + hex_pair(m[3]) + seq![':'] + hex_pair(m[4]) + seq![':'] + hex_pair(m[5])
}

fn hex_char_ex(v: u8) -> (c: char)
    requires
        v < 16,
    ensures
        c == hex_char(v as int),
{
    if v < 10 {
        (48 + v) as char
    } else {
        (55 + v) as char
    }
}

fn push_hex_pair(out: &mut Vec<char>, b: u8)
    ensures
        final(out)@ == old(out)@ + hex_pair(b),
{
    out.push(hex_char_ex(b / 16));
    out.push(hex_char_ex(b % 16));
    proof {
        assert(out@ =~= old(out)@ + hex_pair(b));
    }
}

/// Formats a 6-byte hardware address in its canonical colon-separated form.
pub fn format_mac(m: &[u8; 6]) -> (s: String)
    ensures
        s@ == mac_chars(m@),
{
    let mut v: Vec<char> = Vec::new();
    push_hex_pair(&mut v, m[0]);
    v.push(':');
    push_hex_pair(&mut v, m[1]);
    v.push(':');
    push_hex_pair(&mut v, m[2]);
    v.push(':');
    push_hex_pair(&mut v, m[3]);
    v.push(':');
    push_hex_pair(&mut v, m[4]);
    v.push(':');
    push_hex_pair(&mut v, m[5]);
    proof {
        assert(v@ =~= mac_chars(m@));
    }
    chars_to_string(&v)
}

/// The error signal for a reading list that stands for "no real interface".
pub open spec fn no_interface_error() -> AppStateModel {
    AppStateModel::Error { h: "wifi interface error"@, d: "wifi interface is not existed"@ }
}

/// The error signal for a named interface whose access-point record or
/// status field is missing.
pub open spec fn no_connection_error() -> AppStateModel {
    AppStateModel::Error { h: "Internet connection failed"@, d: "Internet connection do not exists"@ }
}

/// The display row computed for one complete reading (name, address and
/// status present).
pub open spec fn row_model(r: ReadingModel, hide_info: bool) -> RowModel
    recommends
        r.name is Some,
        r.mac is Some,
        r.bss is Some,
        r.bss.unwrap().status is Some,
{
    RowModel {
        label: r.name.unwrap(),
        bold: r.bss.unwrap().status.unwrap() == 1,
        signal: signal_dbm_of(r.bss.unwrap().signal),
        severity: severity_of(magnitude(signal_dbm_of(r.bss.unwrap().signal))),
        mac: spec_anonymize(mac_chars(r.mac.unwrap()), hide_info),
    }
}

/// What one reading adds to the rows gathered so far: nothing for an
/// unnamed interface, a failure for a named one without an association
/// status, nothing for one without a hardware address, and one row
/// otherwise.
pub open spec fn step_spec(rows: Seq<RowModel>, r: ReadingModel, hide_info: bool) -> Result<
    Seq<RowModel>,
    AppStateModel,
> {
    if r.name is None {
        Ok(rows)
    } else if !(r.bss matches Some(b) && b.status is Some) {
        Err(no_connection_error())
    } else if r.mac is None {
        Ok(rows)
    } else {
        Ok(rows.push(row_model(r, hide_info)))
    }
}

/// The rows produced by a reading list, in list order, failing fast at the
/// first named interface without an association status.
pub open spec fn rows_spec(rs: Seq<ReadingModel>, hide_info: bool) -> Result<
    Seq<RowModel>,
    AppStateModel,
>
    decreases rs.len(),
{
    if rs.len() == 0 {
        Ok(Seq::empty())
    } else {
        match rows_spec(rs.drop_last(), hide_info) {
            Ok(rows) => step_spec(rows, rs.last(), hide_info),
            Err(e) => Err(e),
        }
    }
}

/// The whole pipeline: a reading list of length exactly one stands for "no
/// real interface" and fails; otherwise the rows are gathered in order.
pub open spec fn sample_spec(rs: Seq<ReadingModel>, hide_info: bool) -> Result<
    Seq<RowModel>,
    AppStateModel,
> {
    if rs.len() == 1 {
        Err(no_interface_error())
    } else {
        rows_spec(rs, hide_info)
    }
}

proof fn lemma_rows_spec_err_extends(rs: Seq<ReadingModel>, hide_info: bool, i: int)
    requires
        0 <= i <= rs.len(),
        rows_spec(rs.take(i), hide_info) is Err,
    ensures
        rows_spec(rs, hide_info) == rows_spec(rs.take(i), hide_info),
    decreases rs.len() - i,
{
    if i == rs.len() {
        assert(rs.take(i) =~= rs);
    } else {
        assert(rs.take(i + 1).drop_last() =~= rs.take(i));
        assert(rows_spec(rs.take(i + 1), hide_info) == rows_spec(rs.take(i), hide_info));
        lemma_rows_spec_err_extends(rs, hide_info, i + 1);
    }
}

/// Turns one round of readings into display rows, or into the error view
/// that the dashboard should switch to. A list of length exactly one is
/// treated as "interface missing"; a named interface without an association
/// status aborts the whole sample.
pub fn sample(readings: &Vec<InterfaceReading>, hide_info: bool) -> (r: Result<
    Vec<DisplayRow>,
    AppState,
>)
    ensures
        match r {
            Ok(rows) => sample_spec(readings.deep_view(), hide_info) == Ok::<
                Seq<RowModel>,
                AppStateModel,
            >(rows.deep_view()),
            Err(e) => sample_spec(readings.deep_view(), hide_info) == Err::<
                Seq<RowModel>,
                AppStateModel,
            >(e.deep_view()),
        },
        readings@.len() == 1 ==> (r matches Err(e) && e.deep_view() == no_interface_error()),
{
    let ghost rvs = readings.deep_view();
    if readings.len() == 1 {
        return Err(
            AppState::Error { h: "wifi interface error", d: "wifi interface is not existed" },
        );
    }
    let mut rows: Vec<DisplayRow> = Vec::new();
    let n = readings.len();
    let mut i: usize = 0;
    proof {
        assert(rvs.take(0) =~= Seq::<ReadingModel>::empty());
        assert(rows.deep_view() =~= Seq::<RowModel>::empty());
    }
    while i < n
        invariant
            i <= n,
            n == readings@.len(),
            n != 1,
            rvs == readings.deep_view(),
            rvs.len() == n,
            rows_spec(rvs.take(i as int), hide_info) == Ok::<Seq<RowModel>, AppStateModel>(
                rows.deep_view(),
            ),
        decreases n - i,
    {
        let ghost prev = rows.deep_view();
        proof {
            rvs.lemma_take_succ_push(i as int);
            assert(rvs.take(i as int + 1).drop_last() =~= rvs.take(i as int));
            assert(rvs.take(i as int + 1).last() == rvs[i as int]);
        }
        let rd = &readings[i];
        proof {
            assert(rvs[i as int] == rd.deep_view());
        }
        match &rd.name {
            None => {},
            Some(name) => {
                match &rd.bss {
                    None => {
                        proof {
                            lemma_rows_spec_err_extends(rvs, hide_info, i as int + 1);
                        }
                        return Err(
                            AppState::Error {
                                h: "Internet connection failed",
                                d: "Internet connection do not exists",
                            },
                        );
                    },
                    Some(b) => {
                        let bv = *b;
                        match bv.status {
                            None => {
                                proof {
                                    lemma_rows_spec_err_extends(rvs, hide_info, i as int + 1);
                                }
                                return Err(
                                    AppState::Error {
                                        h: "Internet connection failed",
                                        d: "Internet connection do not exists",
                                    },
                                );
                            },
                            Some(status) => {
                                let sig: i32 = match bv.signal {
                                    Some(s) => div100_trunc(s),
                                    None => 0,
                                };
                                let mag: i32 = if sig < 0 {
                                    -sig
                                } else {
                                    sig
                                };
                                let sev = get_color_for_signal(mag);
                                match &rd.mac {
                                    None => {},
                                    Some(mac_bytes) => {
                                        let mac_string = format_mac(mac_bytes);
                                        let mac_text = get_security_info(
                                            mac_string.as_str(),
                                            hide_info,
                                        );
                                        proof {
                                            assert(mac_bytes.deep_view() =~= mac_bytes@);
                                        }
                                        let row = DisplayRow {
                                            label: name.clone(),
                                            bold: status == 1,
                                            signal_dbm: sig,
                                            severity: sev,
                                            mac_text,
                                        };
                                        proof {
                                            assert(row.deep_view() == row_model(
                                                rvs[i as int],
                                                hide_info,
                                            ));
                                        }
                                        rows.push(row);
                                        proof {
                                            assert(rows.deep_view() =~= prev.push(
                                                row_model(rvs[i as int], hide_info),
                                            ));
                                        }
                                    },
                                }
                            },
                        }
                    },
                }
            },
        }
        i += 1;
    }
    proof {
        assert(rvs.take(n as int) =~= rvs);
    }
    Ok(rows)
}

/// The hint line shown under the monitoring rows; which of the two texts
/// appears depends on whether identity fields are currently hidden.
pub fn hint_text(hide_info: bool) -> (r: &'static str)
    ensures
        hide_info ==> r@ == "For show mac address press 'h'"@,
        !hide_info ==> r@ == "For hide mac address press 'h'"@,
{
    if hide_info {
        "For show mac address press 'h'"
    } else {
        "For hide mac address press 'h'"
    }
}

/// Applies one sampling outcome to the shared state: a failure switches the
/// view to the carried error and suppresses the render of this tick; a
/// success leaves the state alone and lets the tick render.
pub fn apply_sample_result(st: &mut ProgramState, r: &Result<Vec<DisplayRow>, AppState>) -> (do_render:
    bool)
    ensures
        match r {
            Err(e) => *final(st) == spec_change_state(*old(st), *e) && !do_render,
            Ok(_) => *final(st) == *old(st) && do_render,
        },
{
    match r {
        Err(e) => {
            st.change_state(*e);
            false
        },
        Ok(_) => true,
    }
}

} // verus!
