//! Processor statistics and identification: the aggregate time counters of
//! `/proc/stat` and the per-core description of `/proc/cpuinfo`.

use crate::text::{
    chars_eq_str, chars_of, lines, parse_uint, parse_unsigned, push_chars, push_str,
    split_lines, split_once, split_once_char, split_words, starts_with_str, lemma_words_nonempty, string_from_chars,
    trim, trim_chars, views, words,
};
use vstd::prelude::*;

verus! {

/// The name of an Arm core by its part number, where it is a known one.
pub open spec fn arm_core_name(part: Seq<char>) -> Option<Seq<char>> {
    if part == "0xd05"@ {
        Some("ARM Cortex-A55"@)
    } else if part == "0xd0a"@ {
        Some("ARM Cortex-A75"@)
    } else if part == "0xd0b"@ {
        Some("ARM Cortex-A76"@)
    } else if part == "0xd0c"@ {
        Some("ARM Neoverse N1"@)
    } else if part == "0xd0d"@ {
        Some("ARM Cortex-A77"@)
    } else if part == "0xd0e"@ {
        Some("ARM Cortex-A76AE"@)
    } else if part == "0xd40"@ {
        Some("ARM Neoverse V1"@)
    } else if part == "0xd41"@ {
        Some("ARM Cortex-A78"@)
    } else if part == "0xd44"@ {
        Some("ARM Cortex-X1"@)
    } else if part == "0xd46"@ {
        Some("ARM Cortex-A510"@)
    } else if part == "0xd47"@ {
        Some("ARM Cortex-A710"@)
    } else if part == "0xd48"@ {
        Some("ARM Cortex-X2"@)
    } else if part == "0xd49"@ {
        Some("ARM Neoverse N2"@)
    } else if part == "0xd4a"@ {
        Some("ARM Neoverse E1"@)
    } else if part == "0xd4b"@ {
        Some("ARM Cortex-A78AE"@)
    } else if part == "0xd4c"@ {
        Some("ARM Cortex-X1C"@)
    } else if part == "0xd4d"@ {
        Some("ARM Cortex-A715"@)
    } else if part == "0xd4e"@ {
        Some("ARM Cortex-X3"@)
    } else {
        None
    }
}

fn arm_core_name_of(part: &Vec<char>) -> (res: Option<&'static str>)
    ensures
        match (res, arm_core_name(part@)) {
            (Some(a), Some(b)) => a@ == b,
            (None, None) => true,
            _ => false,
        },
{
    if chars_eq_str(part, "0xd05") {
        Some("ARM Cortex-A55")
    } else if chars_eq_str(part, "0xd0a") {
        Some("ARM Cortex-A75")
    } else if chars_eq_str(part, "0xd0b") {
        Some("ARM Cortex-A76")
    } else if chars_eq_str(part, "0xd0c") {
        Some("ARM Neoverse N1")
    } else if chars_eq_str(part, "0xd0d") {
        Some("ARM Cortex-A77")
    } else if chars_eq_str(part, "0xd0e") {
        Some("ARM Cortex-A76AE")
    } else if chars_eq_str(part, "0xd40") {
        Some("ARM Neoverse V1")
    } else if chars_eq_str(part, "0xd41") {
        Some("ARM Cortex-A78")
    } else if chars_eq_str(part, "0xd44") {
        Some("ARM Cortex-X1")
    } else if chars_eq_str(part, "0xd46") {
        Some("ARM Cortex-A510")
    } else if chars_eq_str(part, "0xd47") {
        Some("ARM Cortex-A710")
    } else if chars_eq_str(part, "0xd48") {
        Some("ARM Cortex-X2")
    } else if chars_eq_str(part, "0xd49") {
        Some("ARM Neoverse N2")
    } else if chars_eq_str(part, "0xd4a") {
        Some("ARM Neoverse E1")
    } else if chars_eq_str(part, "0xd4b") {
        Some("ARM Cortex-A78AE")
    } else if chars_eq_str(part, "0xd4c") {
        Some("ARM Cortex-X1C")
    } else if chars_eq_str(part, "0xd4d") {
        Some("ARM Cortex-A715")
    } else if chars_eq_str(part, "0xd4e") {
        Some("ARM Cortex-X3")
    } else {
        None
    }
}

/// The model name reported for a core with the given implementer and part
/// numbers.
pub open spec fn cpu_model_name(implementer: Seq<char>, part: Seq<char>) -> Seq<char> {
    if implementer == "0x41"@ {
        match arm_core_name(part) {
            Some(name) => name,
            None => "ARM CPU (part: "@ + part + ")"@,
        }
    } else {
        "CPU (implementer: "@ + implementer + ", part: "@ + part + ")"@
    }
}

/// Names a processor core from its implementer and part numbers.
pub fn identify_cpu_model(implementer: &str, part: &str) -> (res: String)
    ensures
        res@ == cpu_model_name(implementer@, part@),
{
    let imp = chars_of(implementer);
    let p = chars_of(part);
    let mut out: Vec<char> = Vec::new();
    if chars_eq_str(&imp, "0x41") {
        match arm_core_name_of(&p) {
            Some(name) => {
                push_str(&mut out, name);
            },
            None => {
                push_str(&mut out, "ARM CPU (part: ");
                push_chars(&mut out, &p);
                push_str(&mut out, ")");
            },
        }
    } else {
        push_str(&mut out, "CPU (implementer: ");
        push_chars(&mut out, &imp);
        push_str(&mut out, ", part: ");
        push_chars(&mut out, &p);
        push_str(&mut out, ")");
    }
    string_from_chars(&out)
}

/// The words of `ws` that read as `u64` numbers, in order.
pub open spec fn numbers(ws: Seq<Seq<char>>) -> Seq<u64>
    decreases ws.len(),
{
    if ws.len() == 0 {
        Seq::empty()
    } else {
        let rest = numbers(ws.drop_last());
        match parse_unsigned(ws.last(), 10, u64::MAX as nat) {
            Some(v) => rest.push(v as u64),
            None => rest,
        }
    }
}

/// The counters of an aggregate `cpu` line: the numbers after its label.
pub open spec fn cpu_line_values(line: Seq<char>) -> Seq<u64> {
    numbers(words(line).skip(1))
}

/// A line that starts with `cpu ` and has at least four counters.
pub open spec fn cpu_line_qualifies(line: Seq<char>) -> bool {
    &&& line.len() >= 4
    &&& line.take(4) == "cpu "@
    &&& cpu_line_values(line).len() >= 4
}

pub open spec fn value_at(vs: Seq<u64>, k: int) -> u64 {
    if 0 <= k < vs.len() {
        vs[k]
    } else {
        0
    }
}

/// Total time (user, nice, system, idle, iowait, irq, softirq and steal)
/// and idle time (idle and iowait), added with wraparound.
pub open spec fn cpu_times_of(vs: Seq<u64>) -> (u64, u64) {
    let total = value_at(vs, 0).wrapping_add(value_at(vs, 1)).wrapping_add(
        value_at(vs, 2),
    ).wrapping_add(value_at(vs, 3)).wrapping_add(value_at(vs, 4)).wrapping_add(
        value_at(vs, 5),
    ).wrapping_add(value_at(vs, 6)).wrapping_add(value_at(vs, 7));
    (total, value_at(vs, 3).wrapping_add(value_at(vs, 4)))
}

/// The times of the first qualifying `cpu` line.
pub open spec fn cpu_times_in(ls: Seq<Seq<char>>) -> Option<(u64, u64)>
    decreases ls.len(),
{
    if ls.len() == 0 {
        None
    } else if cpu_line_qualifies(ls[0]) {
        Some(cpu_times_of(cpu_line_values(ls[0])))
    } else {
        cpu_times_in(ls.drop_first())
    }
}

/// The numbers among the words from position `from` on.
fn numbers_from(ws: &Vec<Vec<char>>, from: usize) -> (res: Vec<u64>)
    requires
        from <= ws.len(),
    ensures
        res@ == numbers(views(ws@).skip(from as int)),
{
    let mut out: Vec<u64> = Vec::new();
    let mut i = from;
    let ghost all = views(ws@).skip(from as int);
    assert(all.take(0) =~= Seq::<Seq<char>>::empty());
    while i < ws.len()
        invariant
            from <= i <= ws.len(),
            all == views(ws@).skip(from as int),
            out@ == numbers(all.take(i - from)),
        decreases ws.len() - i,
    {
        let ghost pre = all.take(i - from);
        let ghost next = all.take(i + 1 - from);
        assert(next.drop_last() == pre);
        assert(next.last() == ws@[i as int]@);
        match parse_uint(&ws[i], 10, u64::MAX) {
            Some(v) => {
                out.push(v);
            },
            None => {},
        }
        i = i + 1;
    }
    assert(all.take(i - from) == all);
    out
}

fn get_or_zero(vs: &Vec<u64>, k: usize) -> (res: u64)
    ensures
        res == value_at(vs@, k as int),
{
    if k < vs.len() {
        vs[k]
    } else {
        0
    }
}

/// The total and idle processor time of `/proc/stat`, from its first
/// `cpu ` line with at least four counters.
pub fn cpu_times_from(stat: &str) -> (res: Result<(u64, u64), String>)
    ensures
        match (res, cpu_times_in(lines(stat@))) {
            (Ok(t), Some(u)) => t == u,
            (Err(e), None) => e@ == "Failed to parse /proc/stat"@,
            _ => false,
        },
{
    let text = chars_of(stat);
    let ls = split_lines(&text);
    let mut i: usize = 0;
    assert(views(ls@).skip(0) =~= views(ls@));
    while i < ls.len()
        invariant
            i <= ls.len(),
            cpu_times_in(views(ls@).skip(i as int)) == cpu_times_in(lines(stat@)),
            views(ls@) == lines(stat@),
        decreases ls.len() - i,
    {
        let line = &ls[i];
        let ghost rest = views(ls@).skip(i as int);
        assert(rest[0] == line@);
        assert(rest.drop_first() == views(ls@).skip(i + 1));
        if starts_with_str(line, "cpu ") {
            proof {
                reveal_strlit("cpu ");
                assert(line@[0] == line@.take(4)[0]);
                lemma_words_nonempty(line@);
            }
            let ws = split_words(line);
            {
                let values = numbers_from(&ws, 1);
                if values.len() >= 4 {
                    let user = get_or_zero(&values, 0);
                    let nice = get_or_zero(&values, 1);
                    let system = get_or_zero(&values, 2);
                    let idle = get_or_zero(&values, 3);
                    let iowait = get_or_zero(&values, 4);
                    let irq = get_or_zero(&values, 5);
                    let softirq = get_or_zero(&values, 6);
                    let steal = get_or_zero(&values, 7);
                    let total = user.wrapping_add(nice).wrapping_add(system).wrapping_add(
                        idle,
                    ).wrapping_add(iowait).wrapping_add(irq).wrapping_add(softirq).wrapping_add(
                        steal,
                    );
                    let idle_total = idle.wrapping_add(iowait);
                    return Ok((total, idle_total));
                }
            }
        }
        i = i + 1;
    }
    Err("Failed to parse /proc/stat".to_string())
}

/// The busy and the total processor time that passed between two samples
/// of `(total, idle)`, or `None` where no time passed.
pub open spec fn usage_delta(first: (u64, u64), second: (u64, u64)) -> Option<(u64, u64)> {
    let total = if second.0 >= first.0 {
        (second.0 - first.0) as u64
    } else {
        0u64
    };
    let idle = if second.1 >= first.1 {
        (second.1 - first.1) as u64
    } else {
        0u64
    };
    if total == 0 {
        None
    } else {
        Some((total.wrapping_sub(idle), total))
    }
}

pub fn cpu_usage_delta(first: (u64, u64), second: (u64, u64)) -> (res: Option<(u64, u64)>)
    ensures
        res == usage_delta(first, second),
{
    let total_diff = second.0.saturating_sub(first.0);
    let idle_diff = second.1.saturating_sub(first.1);
    if total_diff == 0 {
        return None;
    }
    Some((total_diff.wrapping_sub(idle_diff), total_diff))
}

/// One processor core as `/proc/cpuinfo` describes it.
#[derive(Debug)]
pub struct CpuCore {
    pub processor: u32,
    pub bogomips: String,
    pub features: Vec<String>,
    pub implementer: String,
    pub architecture: String,
    pub variant: String,
    pub part: String,
    pub revision: String,
}

/// What a core description holds.
pub struct CpuCoreModel {
    pub processor: u32,
    pub bogomips: Seq<char>,
    pub features: Seq<Seq<char>>,
    pub implementer: Seq<char>,
    pub architecture: Seq<char>,
    pub variant: Seq<char>,
    pub part: Seq<char>,
    pub revision: Seq<char>,
}

impl View for CpuCore {
    type V = CpuCoreModel;

    open spec fn view(&self) -> CpuCoreModel {
        CpuCoreModel {
            processor: self.processor,
            bogomips: self.bogomips@,
            features: self.features.deep_view(),
            implementer: self.implementer@,
            architecture: self.architecture@,
            variant: self.variant@,
            part: self.part@,
            revision: self.revision@,
        }
    }
}

pub open spec fn empty_core() -> CpuCoreModel {
    CpuCoreModel {
        processor: 0,
        bogomips: Seq::empty(),
        features: Seq::empty(),
        implementer: Seq::empty(),
        architecture: Seq::empty(),
        variant: Seq::empty(),
        part: Seq::empty(),
        revision: Seq::empty(),
    }
}

impl Default for CpuCore {
    fn default() -> (res: Self)
        ensures
            res@ == empty_core(),
    {
        let features: Vec<String> = Vec::new();
        assert(features.deep_view() =~= Seq::<Seq<char>>::empty());
        CpuCore {
            processor: 0,
            bogomips: String::new(),
            features,
            implementer: String::new(),
            architecture: String::new(),
            variant: String::new(),
            part: String::new(),
            revision: String::new(),
        }
    }
}

/// The processor as `/proc/cpuinfo` describes it.
#[derive(Debug)]
pub struct CpuInfo {
    pub core_count: u32,
    pub cores: Vec<CpuCore>,
    pub hardware: String,
    pub serial: String,
    pub model_name: String,
}

/// What a processor description holds.
pub struct CpuInfoModel {
    pub core_count: u32,
    pub cores: Seq<CpuCoreModel>,
    pub hardware: Seq<char>,
    pub serial: Seq<char>,
    pub model_name: Seq<char>,
}

pub open spec fn core_views(cores: Seq<CpuCore>) -> Seq<CpuCoreModel> {
    cores.map_values(|c: CpuCore| c@)
}

impl View for CpuInfo {
    type V = CpuInfoModel;

    open spec fn view(&self) -> CpuInfoModel {
        CpuInfoModel {
            core_count: self.core_count,
            cores: core_views(self.cores@),
            hardware: self.hardware@,
            serial: self.serial@,
            model_name: self.model_name@,
        }
    }
}

/// What has been read of `/proc/cpuinfo` after some lines.
pub struct CpuScan {
    pub cores: Seq<CpuCoreModel>,
    pub current: CpuCoreModel,
    pub hardware: Seq<char>,
    pub serial: Seq<char>,
}

/// A core block has begun once its number or its BogoMIPS was read.
pub open spec fn core_started(c: CpuCoreModel) -> bool {
    c.processor > 0 || c.bogomips.len() > 0
}

/// A `key: value` line applied to the scan.
pub open spec fn scan_entry(st: CpuScan, key: Seq<char>, value: Seq<char>) -> CpuScan {
    let c = st.current;
    if key == "processor"@ {
        match parse_unsigned(value, 10, u32::MAX as nat) {
            Some(n) => CpuScan { current: CpuCoreModel { processor: n as u32, ..c }, ..st },
            None => st,
        }
    } else if key == "BogoMIPS"@ {
        CpuScan { current: CpuCoreModel { bogomips: value, ..c }, ..st }
    } else if key == "Features"@ {
        CpuScan { current: CpuCoreModel { features: words(value), ..c }, ..st }
    } else if key == "CPU implementer"@ {
        CpuScan { current: CpuCoreModel { implementer: value, ..c }, ..st }
    } else if key == "CPU architecture"@ {
        CpuScan { current: CpuCoreModel { architecture: value, ..c }, ..st }
    } else if key == "CPU variant"@ {
        CpuScan { current: CpuCoreModel { variant: value, ..c }, ..st }
    } else if key == "CPU part"@ {
        CpuScan { current: CpuCoreModel { part: value, ..c }, ..st }
    } else if key == "CPU revision"@ {
        CpuScan { current: CpuCoreModel { revision: value, ..c }, ..st }
    } else if key == "Hardware"@ {
        CpuScan { hardware: value, ..st }
    } else if key == "Serial"@ {
        CpuScan { serial: value, ..st }
    } else {
        st
    }
}

/// One line applied to the scan: a blank line closes a begun core block,
/// a `key: value` line sets a field, any other line is ignored.
pub open spec fn scan_line(st: CpuScan, raw: Seq<char>) -> CpuScan {
    let line = trim(raw);
    if line.len() == 0 {
        if core_started(st.current) {
            CpuScan { cores: st.cores.push(st.current), current: empty_core(), ..st }
        } else {
            st
        }
    } else {
        match split_once(line, ':') {
            Some((k, v)) => scan_entry(st, trim(k), trim(v)),
            None => st,
        }
    }
}

pub open spec fn scan_lines(ls: Seq<Seq<char>>) -> CpuScan
    decreases ls.len(),
{
    if ls.len() == 0 {
        CpuScan {
            cores: Seq::empty(),
            current: empty_core(),
            hardware: Seq::empty(),
            serial: Seq::empty(),
        }
    } else {
        scan_line(scan_lines(ls.drop_last()), ls.last())
    }
}

/// The processor description read from the text of `/proc/cpuinfo`.
pub open spec fn cpu_info_model(content: Seq<char>) -> CpuInfoModel {
    let st = scan_lines(lines(content));
    let cores = if core_started(st.current) {
        st.cores.push(st.current)
    } else {
        st.cores
    };
    CpuInfoModel {
        core_count: cores.len() as u32,
        cores,
        hardware: st.hardware,
        serial: st.serial,
        model_name: if cores.len() > 0 {
            cpu_model_name(cores[0].implementer, cores[0].part)
        } else {
            "Unknown"@
        },
    }
}

fn strings_of(ws: &Vec<Vec<char>>) -> (res: Vec<String>)
    ensures
        res.deep_view() == views(ws@),
{
    let mut out: Vec<String> = Vec::new();
    let mut i: usize = 0;
    while i < ws.len()
        invariant
            i <= ws.len(),
            out.deep_view() == views(ws@).take(i as int),
        decreases ws.len() - i,
    {
        let s = string_from_chars(&ws[i]);
        let ghost before = out.deep_view();
        out.push(s);
        assert(out.deep_view() =~= before.push(ws@[i as int]@));
        assert(views(ws@).take(i + 1) =~= views(ws@).take(i as int).push(ws@[i as int]@));
        i = i + 1;
    }
    assert(views(ws@).take(ws.len() as int) =~= views(ws@));
    out
}

fn apply_entry(
    current: &mut CpuCore,
    hardware: &mut String,
    serial: &mut String,
    key: &Vec<char>,
    value: &Vec<char>,
    Ghost(st): Ghost<CpuScan>,
)
    requires
        st.current == old(current)@,
        st.hardware == old(hardware)@,
        st.serial == old(serial)@,
    ensures
        ({
            let next = scan_entry(st, key@, value@);
            &&& next.cores == st.cores
            &&& next.current == final(current)@
            &&& next.hardware == final(hardware)@
            &&& next.serial == final(serial)@
        }),
{
    if chars_eq_str(key, "processor") {
        match parse_uint(value, 10, 0xffff_ffff) {
            Some(n) => {
                current.processor = n as u32;
            },
            None => {},
        }
    } else if chars_eq_str(key, "BogoMIPS") {
        current.bogomips = string_from_chars(value);
    } else if chars_eq_str(key, "Features") {
        let ws = split_words(value);
        current.features = strings_of(&ws);
    } else if chars_eq_str(key, "CPU implementer") {
        current.implementer = string_from_chars(value);
    } else if chars_eq_str(key, "CPU architecture") {
        current.architecture = string_from_chars(value);
    } else if chars_eq_str(key, "CPU variant") {
        current.variant = string_from_chars(value);
    } else if chars_eq_str(key, "CPU part") {
        current.part = string_from_chars(value);
    } else if chars_eq_str(key, "CPU revision") {
        current.revision = string_from_chars(value);
    } else if chars_eq_str(key, "Hardware") {
        *hardware = string_from_chars(value);
    } else if chars_eq_str(key, "Serial") {
        *serial = string_from_chars(value);
    }
}

/// Reads the processor description from the text of `/proc/cpuinfo`.
pub fn cpu_info_from(content: &str) -> (res: CpuInfo)
    ensures
        res@ == cpu_info_model(content@),
        res.cores@.len() <= u32::MAX ==> res.core_count == res.cores@.len(),
        res.cores@.len() > 0 ==> res.model_name@ == cpu_model_name(
            res.cores@[0].implementer@,
            res.cores@[0].part@,
        ),
        res.cores@.len() == 0 ==> res.model_name@ == "Unknown"@,
{
    let text = chars_of(content);
    let ls = split_lines(&text);
    let mut cores: Vec<CpuCore> = Vec::new();
    let mut current = CpuCore::default();
    let mut hardware = String::new();
    let mut serial = String::new();
    let mut i: usize = 0;
    while i < ls.len()
        invariant
            i <= ls.len(),
            views(ls@) == lines(content@),
            ({
                let st = scan_lines(views(ls@).take(i as int));
                &&& st.cores == core_views(cores@)
                &&& st.current == current@
                &&& st.hardware == hardware@
                &&& st.serial == serial@
            }),
        decreases ls.len() - i,
    {
        let ghost st = scan_lines(views(ls@).take(i as int));
        assert(views(ls@).take(i + 1).drop_last() == views(ls@).take(i as int));
        assert(views(ls@).take(i + 1).last() == ls@[i as int]@);
        let line = trim_chars(&ls[i]);
        if line.len() == 0 {
            if current.processor > 0 || current.bogomips.as_str().unicode_len() > 0 {
                let mut done = CpuCore::default();
                std::mem::swap(&mut current, &mut done);
                let ghost before = core_views(cores@);
                cores.push(done);
                assert(core_views(cores@) =~= before.push(st.current));
            }
        } else {
            match split_once_char(&line, ':') {
                Some((k, v)) => {
                    let key = trim_chars(&k);
                    let value = trim_chars(&v);
                    apply_entry(
                        &mut current,
                        &mut hardware,
                        &mut serial,
                        &key,
                        &value,
                        Ghost(st),
                    );
                },
                None => {},
            }
        }
        i = i + 1;
    }
    assert(views(ls@).take(ls.len() as int) == views(ls@));
    if current.processor > 0 || current.bogomips.as_str().unicode_len() > 0 {
        let ghost before = core_views(cores@);
        let ghost cur = current@;
        cores.push(current);
        assert(core_views(cores@) =~= before.push(cur));
    }
    let model_name = if cores.len() > 0 {
        identify_cpu_model(cores[0].implementer.as_str(), cores[0].part.as_str())
    } else {
        "Unknown".to_string()
    };
    CpuInfo { core_count: cores.len() as u32, cores, hardware, serial, model_name }
}

/// The processor is named after the first core listed: where the text
/// describes any core, the model name is that of the first core's
/// implementer and part, and `Unknown` otherwise; the core count is the
/// number of cores listed.
pub proof fn lemma_model_named_after_first_core(content: Seq<char>)
    ensures
        ({
            let m = cpu_info_model(content);
            &&& m.cores.len() <= u32::MAX ==> m.core_count == m.cores.len()
            &&& m.cores.len() > 0 ==> m.model_name == cpu_model_name(
                m.cores[0].implementer,
                m.cores[0].part,
            )
            &&& m.cores.len() == 0 ==> m.model_name == "Unknown"@
        }),
{
}

/// Reading more lines never changes a core block that was already closed:
/// the cores closed after some lines begin every later list of cores.
pub proof fn lemma_closed_cores_stay(ls: Seq<Seq<char>>, more: Seq<Seq<char>>)
    ensures
        scan_lines(ls).cores.is_prefix_of(scan_lines(ls + more).cores),
    decreases more.len(),
{
    if more.len() == 0 {
        assert(ls + more =~= ls);
    } else {
        lemma_closed_cores_stay(ls, more.drop_last());
        assert((ls + more).drop_last() =~= ls + more.drop_last());
        assert((ls + more).last() == more.last());
    }
}

/// The total time is the sum of the first eight counters (user, nice,
/// system, idle, iowait, irq, softirq, steal; a missing one counts zero)
/// and the idle time that of idle and iowait, wherever those sums fit.
pub proof fn lemma_cpu_times_are_sums(vs: Seq<u64>)
    requires
        value_at(vs, 0) + value_at(vs, 1) + value_at(vs, 2) + value_at(vs, 3) + value_at(vs, 4)
            + value_at(vs, 5) + value_at(vs, 6) + value_at(vs, 7) <= u64::MAX,
    ensures
        cpu_times_of(vs).0 == value_at(vs, 0) + value_at(vs, 1) + value_at(vs, 2) + value_at(vs, 3)
            + value_at(vs, 4) + value_at(vs, 5) + value_at(vs, 6) + value_at(vs, 7),
        cpu_times_of(vs).1 == value_at(vs, 3) + value_at(vs, 4),
{
}

/// Only the first qualifying `cpu ` line counts: lines after it never
/// change what is read.
pub proof fn lemma_first_cpu_line_counts(ls: Seq<Seq<char>>, more: Seq<Seq<char>>)
    requires
        cpu_times_in(ls) is Some,
    ensures
        cpu_times_in(ls + more) == cpu_times_in(ls),
    decreases ls.len(),
{
    assert((ls + more)[0] == ls[0]);
    if !cpu_line_qualifies(ls[0]) {
        assert((ls + more).drop_first() =~= ls.drop_first() + more);
        lemma_first_cpu_line_counts(ls.drop_first(), more);
    }
}

/// Between two samples where the total time grew by `dt > 0` and the idle
/// time by `di <= dt`, the busy time is `dt - di` out of `dt`; where the
/// total did not grow there is no usage to report.
pub proof fn lemma_usage_between_samples(first: (u64, u64), second: (u64, u64))
    ensures
        second.0 > first.0 && second.1 >= first.1 && second.1 - first.1 <= second.0 - first.0
            ==> usage_delta(first, second) == Some(
            (((second.0 - first.0) - (second.1 - first.1)) as u64, (second.0 - first.0) as u64),
        ),
        second.0 <= first.0 ==> usage_delta(first, second) is None,
{
}

/// Each recognised key of `/proc/cpuinfo` sets its own field: the core's
/// number, BogoMIPS, features, implementer, architecture, variant, part and
/// revision, or the board's hardware and serial.
pub proof fn lemma_cpuinfo_keys(st: CpuScan, v: Seq<char>)
    ensures
        scan_entry(st, "BogoMIPS"@, v).current == (CpuCoreModel { bogomips: v, ..st.current }),
        scan_entry(st, "Features"@, v).current == (CpuCoreModel {
            features: words(v),
            ..st.current
        }),
        scan_entry(st, "CPU implementer"@, v).current == (CpuCoreModel {
            implementer: v,
            ..st.current
        }),
        scan_entry(st, "CPU architecture"@, v).current == (CpuCoreModel {
            architecture: v,
            ..st.current
        }),
        scan_entry(st, "CPU variant"@, v).current == (CpuCoreModel { variant: v, ..st.current }),
        scan_entry(st, "CPU part"@, v).current == (CpuCoreModel { part: v, ..st.current }),
        scan_entry(st, "CPU revision"@, v).current == (CpuCoreModel {
            revision: v,
            ..st.current
        }),
        scan_entry(st, "Hardware"@, v) == (CpuScan { hardware: v, ..st }),
        scan_entry(st, "Serial"@, v) == (CpuScan { serial: v, ..st }),
        parse_unsigned(v, 10, u32::MAX as nat) matches Some(n) ==> scan_entry(
            st,
            "processor"@,
            v,
        ).current == (CpuCoreModel { processor: n as u32, ..st.current }),
{
    reveal_strlit("processor");
    reveal_strlit("BogoMIPS");
    reveal_strlit("Features");
    reveal_strlit("CPU implementer");
    reveal_strlit("CPU architecture");
    reveal_strlit("CPU variant");
    reveal_strlit("CPU part");
    reveal_strlit("CPU revision");
    reveal_strlit("Hardware");
    reveal_strlit("Serial");
    assert("processor"@.len() == 9);
    assert("BogoMIPS"@.len() == 8);
    assert("Features"@.len() == 8);
    assert("CPU implementer"@.len() == 15);
    assert("CPU architecture"@.len() == 16);
    assert("CPU variant"@.len() == 11);
    assert("CPU part"@.len() == 8);
    assert("CPU revision"@.len() == 12);
    assert("Hardware"@.len() == 8);
    assert("Serial"@.len() == 6);
    assert("Features"@[0] != "BogoMIPS"@[0]);
    assert("CPU part"@[0] != "BogoMIPS"@[0] && "CPU part"@[0] != "Features"@[0]);
    assert("Hardware"@[0] != "BogoMIPS"@[0] && "Hardware"@[0] != "Features"@[0] && "Hardware"@[0]
        != "CPU part"@[0]);
}

} // verus!
