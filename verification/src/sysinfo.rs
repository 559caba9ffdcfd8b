//! System status readouts: uptime rendering, memory statistics and the
//! kernel identification line.

use crate::text::{
    chars_eq_str, chars_of, dec, join, lemma_decimal_reads_back, join_chars, lines, parse_uint, parse_unsigned, push_dec,
    push_str, split_lines, split_words, string_from_chars, trim, trim_chars, views,
    words,
};
use vstd::prelude::*;

verus! {

/// The non-empty parts of an uptime: days, hours and minutes where not
/// zero, then seconds where not zero or where nothing came before.
pub open spec fn uptime_parts(seconds: nat) -> Seq<Seq<char>> {
    let days = seconds / 86400;
    let hours = (seconds % 86400) / 3600;
    let minutes = (seconds % 3600) / 60;
    let secs = seconds % 60;
    let d = if days > 0 {
        seq![dec(days) + "天"@]
    } else {
        Seq::empty()
    };
    let h = if hours > 0 {
        seq![dec(hours) + "小时"@]
    } else {
        Seq::empty()
    };
    let m = if minutes > 0 {
        seq![dec(minutes) + "分钟"@]
    } else {
        Seq::empty()
    };
    let front = d + h + m;
    if front.len() == 0 || secs > 0 {
        front.push(dec(secs) + "秒"@)
    } else {
        front
    }
}

/// The uptime as a line such as `2天 3小时 45分钟`.
pub open spec fn uptime_text(seconds: nat) -> Seq<char> {
    join(uptime_parts(seconds), " "@)
}

/// The rendered uptime is never empty: it ends with a part such as `0秒`
/// at the least.
pub proof fn lemma_uptime_text_nonempty(seconds: nat)
    ensures
        uptime_parts(seconds).len() > 0,
        uptime_text(seconds).len() > 0,
{
    let parts = uptime_parts(seconds);
    lemma_dec_nonempty(seconds % 60);
    lemma_dec_nonempty(seconds / 86400);
    lemma_dec_nonempty((seconds % 86400) / 3600);
    lemma_dec_nonempty((seconds % 3600) / 60);
    lemma_join_nonempty(parts, " "@);
}

proof fn lemma_dec_nonempty(n: nat)
    ensures
        dec(n).len() > 0,
    decreases n,
{
    if n >= 10 {
        lemma_dec_nonempty(n / 10);
    }
}

proof fn lemma_join_nonempty(parts: Seq<Seq<char>>, sep: Seq<char>)
    requires
        parts.len() > 0,
        parts.last().len() > 0,
    ensures
        join(parts, sep).len() > 0,
{
}

fn number_with_unit(n: u64, unit: &str) -> (res: Vec<char>)
    ensures
        res@ == dec(n as nat) + unit@,
{
    let mut v: Vec<char> = Vec::new();
    push_dec(&mut v, n);
    push_str(&mut v, unit);
    v
}

/// Renders a number of seconds in days, hours, minutes and seconds.
pub fn format_uptime(seconds: u64) -> (res: String)
    ensures
        res@ == uptime_text(seconds as nat),
{
    let days = seconds / 86400;
    let hours = (seconds % 86400) / 3600;
    let minutes = (seconds % 3600) / 60;
    let secs = seconds % 60;
    let mut parts: Vec<Vec<char>> = Vec::new();
    let ghost s = seconds as nat;
    if days > 0 {
        parts.push(number_with_unit(days, "天"));
    }
    assert(views(parts@) == if days > 0 {
        seq![dec(days as nat) + "天"@]
    } else {
        Seq::<Seq<char>>::empty()
    });
    let ghost d = views(parts@);
    if hours > 0 {
        parts.push(number_with_unit(hours, "小时"));
    }
    assert(views(parts@) == d + if hours > 0 {
        seq![dec(hours as nat) + "小时"@]
    } else {
        Seq::<Seq<char>>::empty()
    });
    let ghost dh = views(parts@);
    if minutes > 0 {
        parts.push(number_with_unit(minutes, "分钟"));
    }
    assert(views(parts@) == dh + if minutes > 0 {
        seq![dec(minutes as nat) + "分钟"@]
    } else {
        Seq::<Seq<char>>::empty()
    });
    let ghost front = views(parts@);
    if parts.len() == 0 || secs > 0 {
        parts.push(number_with_unit(secs, "秒"));
        assert(views(parts@) == front.push(dec(secs as nat) + "秒"@));
    }
    assert(views(parts@) == uptime_parts(s));
    let sep = chars_of(" ");
    let out = join_chars(&parts, &sep);
    string_from_chars(&out)
}

/// Memory figures in bytes: total, available, cached and buffers.
pub type MemoryFigures = (u64, u64, u64, u64);

/// One line of `/proc/meminfo` applied: a line with at least two fields
/// whose label is one of the four sets that figure to its number (zero
/// where it is not one) times 1024, with wraparound.
pub open spec fn meminfo_step(acc: MemoryFigures, line: Seq<char>) -> MemoryFigures {
    let ws = words(line);
    if ws.len() < 2 {
        acc
    } else {
        let n: u64 = match parse_unsigned(ws[1], 10, u64::MAX as nat) {
            Some(v) => v as u64,
            None => 0u64,
        };
        let v = n.wrapping_mul(1024);
        if ws[0] == "MemTotal:"@ {
            (v, acc.1, acc.2, acc.3)
        } else if ws[0] == "MemAvailable:"@ {
            (acc.0, v, acc.2, acc.3)
        } else if ws[0] == "Cached:"@ {
            (acc.0, acc.1, v, acc.3)
        } else if ws[0] == "Buffers:"@ {
            (acc.0, acc.1, acc.2, v)
        } else {
            acc
        }
    }
}

pub open spec fn meminfo_of(ls: Seq<Seq<char>>) -> MemoryFigures
    decreases ls.len(),
{
    if ls.len() == 0 {
        (0, 0, 0, 0)
    } else {
        meminfo_step(meminfo_of(ls.drop_last()), ls.last())
    }
}

/// Reads total, available, cached and buffer memory, in bytes, from the
/// text of `/proc/meminfo`; a figure that is not there is zero.
pub fn memory_info_from(content: &str) -> (res: MemoryFigures)
    ensures
        res == meminfo_of(lines(content@)),
{
    let text = chars_of(content);
    let ls = split_lines(&text);
    let mut total: u64 = 0;
    let mut available: u64 = 0;
    let mut cached: u64 = 0;
    let mut buffers: u64 = 0;
    let mut i: usize = 0;
    while i < ls.len()
        invariant
            i <= ls.len(),
            views(ls@) == lines(content@),
            (total, available, cached, buffers) == meminfo_of(views(ls@).take(i as int)),
        decreases ls.len() - i,
    {
        assert(views(ls@).take(i + 1).drop_last() == views(ls@).take(i as int));
        assert(views(ls@).take(i + 1).last() == ls@[i as int]@);
        let ws = split_words(&ls[i]);
        if ws.len() >= 2 {
            let n = match parse_uint(&ws[1], 10, u64::MAX) {
                Some(v) => v,
                None => 0,
            };
            let value = n.wrapping_mul(1024);
            if chars_eq_str(&ws[0], "MemTotal:") {
                total = value;
            } else if chars_eq_str(&ws[0], "MemAvailable:") {
                available = value;
            } else if chars_eq_str(&ws[0], "Cached:") {
                cached = value;
            } else if chars_eq_str(&ws[0], "Buffers:") {
                buffers = value;
            }
        }
        i = i + 1;
    }
    assert(views(ls@).take(ls.len() as int) == views(ls@));
    (total, available, cached, buffers)
}

/// The kernel's identification, as `uname` reports it.
#[derive(Debug)]
pub struct SystemInfo {
    pub sysname: String,
    pub nodename: String,
    pub release: String,
    pub version: String,
    pub machine: String,
    pub domainname: String,
    /// The fields in one line, as `uname -a` prints them.
    pub full_info: String,
}

impl SystemInfo {
    /// The identification from the five `uname` fields; the domain name is
    /// left empty.
    pub fn from_uname(
        sysname: String,
        nodename: String,
        release: String,
        version: String,
        machine: String,
    ) -> (res: Self)
        ensures
            res.sysname == sysname,
            res.nodename == nodename,
            res.release == release,
            res.version == version,
            res.machine == machine,
            res.domainname@ == Seq::<char>::empty(),
            res.full_info@ == sysname@ + " "@ + nodename@ + " "@ + release@ + " "@ + version@
                + " "@ + machine@,
    {
        let mut line: Vec<char> = chars_of(sysname.as_str());
        push_str(&mut line, " ");
        push_str(&mut line, nodename.as_str());
        push_str(&mut line, " ");
        push_str(&mut line, release.as_str());
        push_str(&mut line, " ");
        push_str(&mut line, version.as_str());
        push_str(&mut line, " ");
        push_str(&mut line, machine.as_str());
        SystemInfo {
            sysname,
            nodename,
            release,
            version,
            machine,
            domainname: String::new(),
            full_info: string_from_chars(&line),
        }
    }

    /// The identification where only the system, host and machine names
    /// are known; the line holds the three, trimmed.
    pub fn from_platform(sysname: String, nodename: String, machine: String) -> (res: Self)
        ensures
            res.sysname == sysname,
            res.nodename == nodename,
            res.machine == machine,
            res.release@ == Seq::<char>::empty(),
            res.version@ == Seq::<char>::empty(),
            res.domainname@ == Seq::<char>::empty(),
            res.full_info@ == trim(sysname@ + " "@ + nodename@ + " "@ + machine@),
    {
        let mut line: Vec<char> = chars_of(sysname.as_str());
        push_str(&mut line, " ");
        push_str(&mut line, nodename.as_str());
        push_str(&mut line, " ");
        push_str(&mut line, machine.as_str());
        let t = trim_chars(&line);
        SystemInfo {
            sysname,
            nodename,
            release: String::new(),
            version: String::new(),
            machine,
            domainname: String::new(),
            full_info: string_from_chars(&t),
        }
    }
}

/// An uptime of `d` days, `h` hours, `m` minutes and `s` seconds (hours
/// under 24, minutes and seconds under 60) is rendered as those four
/// numbers with their units, the zero ones left out, and `0秒` for no time.
pub proof fn lemma_uptime_parts_of(d: nat, h: nat, m: nat, s: nat)
    requires
        h < 24,
        m < 60,
        s < 60,
    ensures
        ({
            let front = (if d > 0 {
                seq![dec(d) + "天"@]
            } else {
                Seq::empty()
            }) + (if h > 0 {
                seq![dec(h) + "小时"@]
            } else {
                Seq::empty()
            }) + (if m > 0 {
                seq![dec(m) + "分钟"@]
            } else {
                Seq::empty()
            });
            uptime_parts(d * 86400 + h * 3600 + m * 60 + s) == if front.len() == 0 || s > 0 {
                front.push(dec(s) + "秒"@)
            } else {
                front
            }
        }),
{
    let t = d * 86400 + h * 3600 + m * 60 + s;
    let r = h * 3600 + m * 60 + s;
    assert(r < 86400) by (nonlinear_arith)
        requires
            h < 24,
            m < 60,
            s < 60,
            r == h * 3600 + m * 60 + s,
    ;
    vstd::arithmetic::div_mod::lemma_fundamental_div_mod_converse(t as int, 86400, d as int, r as int);
    vstd::arithmetic::div_mod::lemma_fundamental_div_mod_converse(
        r as int,
        3600,
        h as int,
        (m * 60 + s) as int,
    );
    let q = d * 24 + h;
    assert(t == q * 3600 + (m * 60 + s)) by (nonlinear_arith)
        requires
            t == d * 86400 + h * 3600 + m * 60 + s,
            q == d * 24 + h,
    ;
    vstd::arithmetic::div_mod::lemma_fundamental_div_mod_converse(
        t as int,
        3600,
        q as int,
        (m * 60 + s) as int,
    );
    vstd::arithmetic::div_mod::lemma_fundamental_div_mod_converse(
        (m * 60 + s) as int,
        60,
        m as int,
        s as int,
    );
    let q2 = q * 60 + m;
    assert(t == q2 * 60 + s) by (nonlinear_arith)
        requires
            t == q * 3600 + (m * 60 + s),
            q2 == q * 60 + m,
    ;
    vstd::arithmetic::div_mod::lemma_fundamental_div_mod_converse(t as int, 60, q2 as int, s as int);
}

/// A `/proc/meminfo` line whose label is one of the four figures and whose
/// number `n` (in kB) fits sets that figure to `n * 1024` bytes and leaves
/// the others as they were; a line with any other label changes nothing.
pub proof fn lemma_meminfo_line(acc: MemoryFigures, line: Seq<char>, n: u64)
    requires
        words(line).len() >= 2,
        words(line)[1] == dec(n as nat),
        n * 1024 <= u64::MAX,
    ensures
        ({
            let label = words(line)[0];
            let next = meminfo_step(acc, line);
            let v = (n * 1024) as u64;
            &&& label == "MemTotal:"@ ==> next == (v, acc.1, acc.2, acc.3)
            &&& label == "MemAvailable:"@ ==> next == (acc.0, v, acc.2, acc.3)
            &&& label == "Cached:"@ ==> next == (acc.0, acc.1, v, acc.3)
            &&& label == "Buffers:"@ ==> next == (acc.0, acc.1, acc.2, v)
            &&& label != "MemTotal:"@ && label != "MemAvailable:"@ && label != "Cached:"@ && label
                != "Buffers:"@ ==> next == acc
        }),
{
    lemma_decimal_reads_back(n as nat, u64::MAX as nat);
    vstd::arithmetic::div_mod::lemma_small_mod((n * 1024) as nat, 0x1_0000_0000_0000_0000nat);
    reveal_strlit("MemTotal:");
    reveal_strlit("MemAvailable:");
    reveal_strlit("Cached:");
    reveal_strlit("Buffers:");
    assert("MemTotal:"@.len() == 9);
    assert("MemAvailable:"@.len() == 13);
    assert("Cached:"@.len() == 7);
    assert("Buffers:"@.len() == 8);
}

} // verus!
