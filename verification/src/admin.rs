//! `remote-exec-admin certs`: the arguments of its subcommands and the
//! rules that turn them into certificate requests. Paths are carried as
//! text; reading, writing and signing are the caller's part.
use vstd::prelude::*;

use crate::assoc::{assoc_map, keys_unique, lemma_assoc_absent, lemma_assoc_index, lemma_assoc_remove, lemma_assoc_update};
use crate::text::{has_prefix, spec_split_once, split_once, starts_with, str_eq};

verus! {

/// The admin tool's command line.
pub struct Cli {
    pub command: Commands,
}

pub enum Commands {
    Certs(CertsArgs),
}

pub struct CertsArgs {
    pub command: CertsCommand,
}

pub enum CertsCommand {
    DevInit(DevInitArgs),
    InitCa(InitCaArgs),
    IssueBroker(IssueBrokerArgs),
    IssueDaemon(IssueDaemonArgs),
}

/// `certs dev-init`: a CA, a broker pair and one daemon pair per target.
pub struct DevInitArgs {
    pub out_dir: String,
    pub targets: Vec<String>,
    pub daemon_sans: Vec<String>,
    pub broker_common_name: String,
    pub force: bool,
    pub reuse_ca: ReuseCaArgs,
}

/// Where `dev-init` takes an existing CA from, if anywhere.
pub struct ReuseCaArgs {
    pub reuse_ca_cert_pem: Option<String>,
    pub reuse_ca_key_pem: Option<String>,
    pub reuse_ca_from_dir: Option<String>,
}

pub struct InitCaArgs {
    pub out_dir: String,
    pub ca_common_name: String,
    pub force: bool,
}

pub struct IssueBrokerArgs {
    pub out_dir: String,
    pub ca_cert_pem: String,
    pub ca_key_pem: String,
    pub broker_common_name: String,
    pub force: bool,
}

pub struct IssueDaemonArgs {
    pub out_dir: String,
    pub ca_cert_pem: String,
    pub ca_key_pem: String,
    pub target: String,
    pub sans: Vec<String>,
    pub force: bool,
}

/// A subject alternative name as given: a DNS name, or the text of an IP
/// address, which the caller parses.
#[derive(Debug)]
pub enum SanText {
    Dns(String),
    Ip(String),
}

pub open spec fn san_text_view(s: SanText) -> (bool, Seq<char>) {
    match s {
        SanText::Dns(h) => (true, h@),
        SanText::Ip(a) => (false, a@),
    }
}

/// Whether code point `n` has the Unicode White_Space property, which is
/// what `char::is_whitespace` tests.
pub open spec fn white_space_code_point(n: u32) -> bool {
    ||| 0x9 <= n <= 0xD
    ||| n == 0x20
    ||| n == 0x85
    ||| n == 0xA0
    ||| n == 0x1680
    ||| 0x2000 <= n <= 0x200A
    ||| n == 0x2028
    ||| n == 0x2029
    ||| n == 0x202F
    ||| n == 0x205F
    ||| n == 0x3000
}

/// Whether `c` is white space as `char::is_whitespace` defines it.
pub open spec fn char_is_whitespace(c: char) -> bool {
    white_space_code_point(c as u32)
}

/// Whether `c` is white space (the Unicode White_Space characters).
fn is_whitespace(c: char) -> (res: bool)
    ensures
        res == char_is_whitespace(c),
{
    let n = c as u32;
    (0x9 <= n && n <= 0xD) || n == 0x20 || n == 0x85 || n == 0xA0 || n == 0x1680 || (0x2000 <= n && n <= 0x200A)
        || n == 0x2028 || n == 0x2029 || n == 0x202F || n == 0x205F || n == 0x3000
}

/// Whether `s` holds nothing but white space (so it trims to nothing).
pub fn is_blank(s: &str) -> (res: bool)
    ensures
        res == forall|i: int| 0 <= i < s@.len() ==> char_is_whitespace(#[trigger] s@[i]),
{
    let n = s.unicode_len();
    let mut i: usize = 0;
    while i < n
        invariant
            n == s@.len(),
            i <= n,
            forall|j: int| 0 <= j < i ==> char_is_whitespace(#[trigger] s@[j]),
        decreases n - i,
    {
        if !is_whitespace(s.get_char(i)) {
            return false;
        }
        i = i + 1;
    }
    true
}

pub open spec fn spec_parse_san(value: Seq<char>) -> Result<(bool, Seq<char>), Seq<char>> {
    if has_prefix(value, "dns:"@) {
        let host = value.subrange(4, value.len() as int);
        if forall|i: int| 0 <= i < host.len() ==> char_is_whitespace(#[trigger] host[i]) {
            Err("DNS SAN values cannot be empty"@)
        } else {
            Ok((true, host))
        }
    } else if has_prefix(value, "ip:"@) {
        Ok((false, value.subrange(3, value.len() as int)))
    } else {
        Err("unsupported SAN `"@ + value + "`; expected dns:<hostname> or ip:<address>"@)
    }
}

fn suffix_from(s: &str, start: usize) -> (res: String)
    requires
        start <= s@.len(),
    ensures
        res@ == s@.subrange(start as int, s@.len() as int),
{
    s.substring_char(start, s.unicode_len()).to_owned()
}

/// Reads `dns:<hostname>` or `ip:<address>`; a DNS name must not be blank.
pub fn parse_subject_alt_name(value: &str) -> (res: Result<SanText, String>)
    ensures
        match spec_parse_san(value@) {
            Ok(v) => res matches Ok(s) && san_text_view(s) == v,
            Err(m) => res matches Err(e) && e@ == m,
        },
{
    proof {
        reveal_strlit("dns:");
        reveal_strlit("ip:");
    }
    if starts_with(value, "dns:") {
        let host = suffix_from(value, 4);
        if is_blank(host.as_str()) {
            return Err(String::from_str("DNS SAN values cannot be empty"));
        }
        return Ok(SanText::Dns(host));
    }
    if starts_with(value, "ip:") {
        return Ok(SanText::Ip(suffix_from(value, 3)));
    }
    let mut msg = String::from_str("unsupported SAN `");
    msg.append(value);
    msg.append("`; expected dns:<hostname> or ip:<address>");
    Err(msg)
}

/// The error for an IP SAN whose text is no IP address.
pub fn invalid_ip_san_message(ip: &str) -> (res: String)
    ensures
        res@ == "invalid IP SAN `"@ + ip@ + "`"@,
{
    let mut msg = String::from_str("invalid IP SAN `");
    msg.append(ip);
    msg.append("`");
    msg
}

/// The names one daemon certificate is issued for; `None` stands for the
/// certificate library's localhost defaults.
pub struct DaemonCertRequest {
    pub target: String,
    pub sans: Option<Vec<SanText>>,
}

pub open spec fn sans_view(v: Seq<SanText>) -> Seq<(bool, Seq<char>)> {
    v.map_values(|s: SanText| san_text_view(s))
}

/// The SANs given for `target`, in order, by `entries` (`target=san`).
#[verifier::opaque]
pub open spec fn sans_for(entries: Seq<Seq<char>>, target: Seq<char>) -> Seq<(bool, Seq<char>)>
    decreases entries.len(),
{
    if entries.len() == 0 {
        Seq::empty()
    } else {
        let rest = sans_for(entries.drop_last(), target);
        match spec_split_once(entries.last(), '=') {
            Some((t, v)) => if t == target {
                match spec_parse_san(v) {
                    Ok(s) => rest.push(s),
                    Err(_) => rest,
                }
            } else {
                rest
            },
            None => rest,
        }
    }
}

proof fn lemma_sans_for_push(entries: Seq<Seq<char>>, k: int, t: Seq<char>, v: Seq<char>, s: (bool, Seq<char>))
    requires
        0 <= k < entries.len(),
        spec_split_once(entries[k], '=') == Some((t, v)),
        spec_parse_san(v) == Ok::<(bool, Seq<char>), Seq<char>>(s),
    ensures
        forall|x: Seq<char>| #[trigger] sans_for(entries.take(k + 1), x)
            == if x == t { sans_for(entries.take(k), x).push(s) } else { sans_for(entries.take(k), x) },
{
    reveal(sans_for);
    assert(entries.take(k + 1).drop_last() =~= entries.take(k));
    assert(entries.take(k + 1).last() == entries[k]);
}

proof fn lemma_sans_for_empty(x: Seq<char>)
    ensures
        sans_for(Seq::<Seq<char>>::empty(), x) == Seq::<(bool, Seq<char>)>::empty(),
{
    reveal(sans_for);
}

pub open spec fn invalid_san_entry_text(entry: Seq<char>) -> Seq<char> {
    "invalid --san `"@ + entry + "`; expected target=dns:... or target=ip:..."@
}

/// The first problem with one `--san` entry, given the known targets.
pub open spec fn san_entry_error(entry: Seq<char>, targets: Seq<Seq<char>>) -> Option<Seq<char>> {
    match spec_split_once(entry, '=') {
        None => Some(invalid_san_entry_text(entry)),
        Some((t, v)) => if !targets.contains(t) {
            Some("unknown target `"@ + t + "` in --san"@)
        } else {
            match spec_parse_san(v) {
                Ok(_) => None,
                Err(m) => Some(m),
            }
        },
    }
}

fn contains_str(v: &Vec<String>, s: &str) -> (res: bool)
    ensures
        res == v@.map_values(|x: String| x@).contains(s@),
{
    let mut i: usize = 0;
    while i < v.len()
        invariant
            i <= v@.len(),
            forall|j: int| 0 <= j < i ==> (#[trigger] v@[j])@ != s@,
        decreases v@.len() - i,
    {
        if str_eq(v[i].as_str(), s) {
            assert(v@.map_values(|x: String| x@)[i as int] == s@);
            return true;
        }
        i = i + 1;
    }
    proof {
        let m = v@.map_values(|x: String| x@);
        if m.contains(s@) {
            let j = choose|j: int| 0 <= j < m.len() && m[j] == s@;
            assert(v@[j]@ == s@);
        }
    }
    false
}

pub open spec fn split_value(entry: Seq<char>) -> Seq<char> {
    match spec_split_once(entry, '=') {
        Some((_, v)) => v,
        None => Seq::empty(),
    }
}

/// Checks one `--san target=value` entry: its target and its SAN.
fn check_san_entry(entry: &str, targets: &Vec<String>) -> (res: Result<(String, SanText), String>)
    ensures
        match san_entry_error(entry@, targets@.map_values(|x: String| x@)) {
            Some(m) => res matches Err(e) && e@ == m,
            None => res matches Ok((t, s)) && spec_split_once(entry@, '=') == Some((t@, split_value(entry@)))
                && spec_parse_san(split_value(entry@)) == Ok::<(bool, Seq<char>), Seq<char>>(san_text_view(s)),
        },
{
    let (target, value) = match split_once(entry, '=') {
        Some(parts) => parts,
        None => {
            let mut msg = String::from_str("invalid --san `");
            msg.append(entry);
            msg.append("`; expected target=dns:... or target=ip:...");
            return Err(msg);
        },
    };
    if !contains_str(targets, target.as_str()) {
        let mut msg = String::from_str("unknown target `");
        msg.append(target.as_str());
        msg.append("` in --san");
        return Err(msg);
    }
    match parse_subject_alt_name(value.as_str()) {
        Ok(s) => Ok((target, s)),
        Err(e) => Err(e),
    }
}

pub open spec fn group_view(groups: Seq<(String, Vec<SanText>)>) -> Seq<(Seq<char>, Seq<(bool, Seq<char>)>)> {
    groups.map_values(|e: (String, Vec<SanText>)| (e.0@, sans_view(e.1@)))
}

fn find_group(groups: &Vec<(String, Vec<SanText>)>, target: &str) -> (res: Option<usize>)
    ensures
        match res {
            Some(g) => g < groups@.len() && groups@[g as int].0@ == target@,
            None => forall|j: int| 0 <= j < groups@.len() ==> (#[trigger] group_view(groups@)[j]).0 != target@,
        },
{
    let mut g: usize = 0;
    while g < groups.len()
        invariant
            g <= groups@.len(),
            forall|j: int| 0 <= j < g ==> (#[trigger] group_view(groups@)[j]).0 != target@,
        decreases groups@.len() - g,
    {
        if str_eq(groups[g].0.as_str(), target) {
            return Some(g);
        }
        g = g + 1;
    }
    None
}

/// Whether index `i` is the first place `targets[i]` occurs.
pub open spec fn first_occurrence(targets: Seq<Seq<char>>, i: int) -> bool {
    forall|j: int| 0 <= j < i ==> targets[j] != targets[i]
}

/// What `build_daemon_specs` owes the request at position `i`: its target,
/// and the SANs given for it where it first occurs, else the defaults.
pub open spec fn request_ok(r: DaemonCertRequest, entries: Seq<Seq<char>>, targets: Seq<Seq<char>>, i: int) -> bool {
    &&& r.target@ == targets[i]
    &&& if first_occurrence(targets, i) && sans_for(entries, targets[i]).len() > 0 {
        r.sans matches Some(v) && sans_view(v@) == sans_for(entries, targets[i])
    } else {
        r.sans is None
    }
}

/// One daemon certificate request per `--target`, in order, with the SANs
/// that `--san target=...` gave it; a target without any gets the localhost
/// defaults. The first bad `--san` is the error.
pub fn build_daemon_specs(args: &DevInitArgs) -> (res: Result<Vec<DaemonCertRequest>, String>)
    ensures
        match res {
            Ok(specs) => {
                &&& args.targets@.len() > 0
                &&& forall|k: int| 0 <= k < args.daemon_sans@.len() ==>
                    san_entry_error(#[trigger] args.daemon_sans@[k]@, args.targets@.map_values(|x: String| x@)) is None
                &&& specs@.len() == args.targets@.len()
                &&& forall|i: int| 0 <= i < specs@.len() ==> request_ok(#[trigger] specs@[i],
                    args.daemon_sans@.map_values(|x: String| x@), args.targets@.map_values(|x: String| x@), i)
            },
            Err(e) => {
                ||| exists|k: int| 0 <= k < args.daemon_sans@.len()
                    && (forall|j: int| 0 <= j < k ==> san_entry_error(#[trigger] args.daemon_sans@[j]@, args.targets@.map_values(|x: String| x@)) is None)
                    && san_entry_error(args.daemon_sans@[k]@, args.targets@.map_values(|x: String| x@)) == Some(e@)
                ||| (forall|k: int| 0 <= k < args.daemon_sans@.len() ==>
                        san_entry_error(#[trigger] args.daemon_sans@[k]@, args.targets@.map_values(|x: String| x@)) is None)
                    && args.targets@.len() == 0 && e@ == "at least one --target is required"@
            },
        },
{
    let ghost tv = args.targets@.map_values(|x: String| x@);
    let ghost ev = args.daemon_sans@.map_values(|x: String| x@);
    let mut groups: Vec<(String, Vec<SanText>)> = Vec::new();
    proof {
        assert(group_view(groups@) =~= Seq::<(Seq<char>, Seq<(bool, Seq<char>)>)>::empty());
        assert(ev.take(0) =~= Seq::<Seq<char>>::empty());
        assert forall|t: Seq<char>| sans_for(ev.take(0), t).len() == 0 by {
            lemma_sans_for_empty(t);
        }
    }
    let mut k: usize = 0;
    while k < args.daemon_sans.len()
        invariant
            k <= args.daemon_sans@.len(),
            tv == args.targets@.map_values(|x: String| x@),
            ev == args.daemon_sans@.map_values(|x: String| x@),
            forall|j: int| 0 <= j < k ==> san_entry_error(#[trigger] args.daemon_sans@[j]@, tv) is None,
            keys_unique(group_view(groups@)),
            forall|t: Seq<char>| #[trigger] assoc_map(group_view(groups@)).contains_key(t)
                <==> sans_for(ev.take(k as int), t).len() > 0,
            forall|t: Seq<char>| #[trigger] assoc_map(group_view(groups@)).contains_key(t)
                ==> assoc_map(group_view(groups@))[t] == sans_for(ev.take(k as int), t),
        decreases args.daemon_sans@.len() - k,
    {
        let (target, san) = match check_san_entry(args.daemon_sans[k].as_str(), &args.targets) {
            Ok(parts) => parts,
            Err(e) => return Err(e),
        };
        proof {
            assert(ev[k as int] == args.daemon_sans@[k as int]@);
        }
        let ghost sv = san_text_view(san);
        let ghost gv = group_view(groups@);
        proof {
            lemma_sans_for_push(ev, k as int, target@, split_value(ev[k as int]), sv);
        }
        match find_group(&groups, target.as_str()) {
            Some(g) => {
                proof {
                    lemma_assoc_index(gv, g as int);
                }
                let (name, mut list) = groups.remove(g);
                let ghost lv = sans_view(list@);
                list.push(san);
                proof {
                    assert(sans_view(list@) =~= lv.push(sv));
                }
                groups.insert(g, (name, list));
                proof {
                    assert(group_view(groups@) =~= gv.update(g as int, (gv[g as int].0, lv.push(sv))));
                    lemma_assoc_update(gv, g as int, lv.push(sv));
                    assert forall|a: int, b: int| 0 <= a < b < group_view(groups@).len()
                        implies (#[trigger] group_view(groups@)[a]).0 != (#[trigger] group_view(groups@)[b]).0 by {
                        assert(group_view(groups@)[a].0 == gv[a].0);
                        assert(group_view(groups@)[b].0 == gv[b].0);
                    }
                }
            },
            None => {
                proof {
                    lemma_assoc_absent(gv, target@);
                }
                let ghost tname = target@;
                let mut list: Vec<SanText> = Vec::new();
                list.push(san);
                proof {
                    assert(sans_view(list@) =~= seq![sv]);
                    assert(sans_for(ev.take(k as int), tname).len() == 0);
                    assert(sans_for(ev.take(k as int), tname) =~= Seq::<(bool, Seq<char>)>::empty());
                }
                groups.push((target, list));
                proof {
                    assert(group_view(groups@) =~= gv.push((tname, seq![sv])));
                    assert(group_view(groups@).drop_last() =~= gv);
                    assert forall|a: int, b: int| 0 <= a < b < group_view(groups@).len()
                        implies (#[trigger] group_view(groups@)[a]).0 != (#[trigger] group_view(groups@)[b]).0 by {
                        if b == gv.len() {
                            assert(group_view(groups@)[a] == gv[a]);
                        } else {
                            assert(group_view(groups@)[a] == gv[a]);
                            assert(group_view(groups@)[b] == gv[b]);
                        }
                    }
                    assert(seq![sv] =~= Seq::<(bool, Seq<char>)>::empty().push(sv));
                }
            },
        }
        k = k + 1;
    }
    proof {
        assert(ev.take(k as int) =~= ev);
    }
    let mut specs: Vec<DaemonCertRequest> = Vec::new();
    let mut i: usize = 0;
    while i < args.targets.len()
        invariant
            i <= args.targets@.len(),
            tv == args.targets@.map_values(|x: String| x@),
            ev == args.daemon_sans@.map_values(|x: String| x@),
            specs@.len() == i,
            forall|j: int| 0 <= j < i ==> request_ok(#[trigger] specs@[j], ev, tv, j),
            keys_unique(group_view(groups@)),
            forall|t: Seq<char>| #[trigger] assoc_map(group_view(groups@)).contains_key(t)
                <==> (sans_for(ev, t).len() > 0 && forall|j: int| 0 <= j < i ==> tv[j] != t),
            forall|t: Seq<char>| #[trigger] assoc_map(group_view(groups@)).contains_key(t)
                ==> assoc_map(group_view(groups@))[t] == sans_for(ev, t),
        decreases args.targets@.len() - i,
    {
        let target = args.targets[i].clone();
        let ghost gv = group_view(groups@);
        let sans = match find_group(&groups, target.as_str()) {
            Some(g) => {
                proof {
                    lemma_assoc_index(gv, g as int);
                    lemma_assoc_remove(gv, g as int);
                }
                let (_, list) = groups.remove(g);
                proof {
                    assert(group_view(groups@) =~= gv.remove(g as int));
                }
                if list.len() == 0 { None } else { Some(list) }
            },
            None => {
                proof {
                    lemma_assoc_absent(gv, target@);
                }
                None
            },
        };
        let ghost spec_i = DaemonCertRequest { target, sans };
        specs.push(DaemonCertRequest { target, sans });
        proof {
            assert(specs@[i as int] == spec_i);
            assert(tv[i as int] == target@);
            if first_occurrence(tv, i as int) && sans_for(ev, tv[i as int]).len() > 0 {
                assert(assoc_map(gv).contains_key(target@));
            }
            assert(request_ok(specs@[i as int], ev, tv, i as int));
        }
        i = i + 1;
    }
    if specs.len() == 0 {
        return Err(String::from_str("at least one --target is required"));
    }
    Ok(specs)
}

/// The SANs of `certs issue-daemon`: those given, in order, or the
/// localhost defaults when none are. The first bad one is the error.
pub fn parse_daemon_sans(sans: &Vec<String>) -> (res: Result<Option<Vec<SanText>>, String>)
    ensures
        match res {
            Ok(None) => sans@.len() == 0,
            Ok(Some(v)) => sans@.len() > 0 && v@.len() == sans@.len()
                && forall|i: int| 0 <= i < sans@.len() ==> spec_parse_san(sans@[i]@) == Ok::<(bool, Seq<char>), Seq<char>>(san_text_view(#[trigger] v@[i])),
            Err(e) => exists|i: int| 0 <= i < sans@.len()
                && (forall|j: int| 0 <= j < i ==> #[trigger] spec_parse_san(sans@[j]@) is Ok)
                && spec_parse_san(sans@[i]@) == Err::<(bool, Seq<char>), Seq<char>>(e@),
        },
{
    if sans.len() == 0 {
        return Ok(None);
    }
    let mut out: Vec<SanText> = Vec::new();
    let mut i: usize = 0;
    while i < sans.len()
        invariant
            i <= sans@.len(),
            out@.len() == i,
            forall|j: int| 0 <= j < i ==> spec_parse_san(sans@[j]@) == Ok::<(bool, Seq<char>), Seq<char>>(san_text_view(#[trigger] out@[j])),
        decreases sans@.len() - i,
    {
        match parse_subject_alt_name(sans[i].as_str()) {
            Ok(s) => out.push(s),
            Err(e) => {
                assert forall|j: int| 0 <= j < i implies #[trigger] spec_parse_san(sans@[j]@) is Ok by {
                    assert(spec_parse_san(sans@[j]@) == Ok::<(bool, Seq<char>), Seq<char>>(san_text_view(out@[j])));
                }
                return Err(e);
            },
        }
        i = i + 1;
    }
    Ok(Some(out))
}

/// Where `dev-init` gets its CA.
#[derive(Debug)]
pub enum CaSource {
    Generate,
    FromDir(String),
    FromFiles { cert_pem: String, key_pem: String },
}

/// The CA source that the reuse flags select: a directory, a certificate
/// and key given together, or a new CA; mixed or half-given flags are
/// refused.
pub fn resolve_dev_init_ca(reuse: &ReuseCaArgs) -> (res: Result<CaSource, String>)
    ensures
        if reuse.reuse_ca_from_dir is Some && (reuse.reuse_ca_cert_pem is Some || reuse.reuse_ca_key_pem is Some) {
            res matches Err(e) && e@ == "cannot combine --reuse-ca-from-dir with --reuse-ca-cert-pem/--reuse-ca-key-pem"@
        } else if reuse.reuse_ca_from_dir is Some {
            res matches Ok(CaSource::FromDir(d)) && d@ == reuse.reuse_ca_from_dir->0@
        } else {
            match (reuse.reuse_ca_cert_pem, reuse.reuse_ca_key_pem) {
                (None, None) => res matches Ok(CaSource::Generate),
                (Some(c), Some(k)) => res matches Ok(CaSource::FromFiles { cert_pem, key_pem }) && cert_pem@ == c@ && key_pem@ == k@,
                (Some(_), None) => res matches Err(e) && e@ == "--reuse-ca-cert-pem requires --reuse-ca-key-pem"@,
                (None, Some(_)) => res matches Err(e) && e@ == "--reuse-ca-key-pem requires --reuse-ca-cert-pem"@,
            }
        },
{
    if reuse.reuse_ca_from_dir.is_some() && (reuse.reuse_ca_cert_pem.is_some() || reuse.reuse_ca_key_pem.is_some()) {
        return Err(String::from_str("cannot combine --reuse-ca-from-dir with --reuse-ca-cert-pem/--reuse-ca-key-pem"));
    }
    if let Some(dir) = &reuse.reuse_ca_from_dir {
        return Ok(CaSource::FromDir(dir.clone()));
    }
    match (&reuse.reuse_ca_cert_pem, &reuse.reuse_ca_key_pem) {
        (None, None) => Ok(CaSource::Generate),
        (Some(cert), Some(key)) => Ok(CaSource::FromFiles { cert_pem: cert.clone(), key_pem: key.clone() }),
        (Some(_), None) => Err(String::from_str("--reuse-ca-cert-pem requires --reuse-ca-key-pem")),
        (None, Some(_)) => Err(String::from_str("--reuse-ca-key-pem requires --reuse-ca-cert-pem")),
    }
}

/// Whether every `--san` entry of `dev-init` checks out.
pub open spec fn san_entries_ok(d: DevInitArgs) -> bool {
    forall|k: int| 0 <= k < d.daemon_sans@.len() ==>
        san_entry_error(#[trigger] d.daemon_sans@[k]@, d.targets@.map_values(|x: String| x@)) is None
}

/// Whether `e` is the error of the first `--san` entry that fails.
pub open spec fn first_san_error(d: DevInitArgs, e: Seq<char>) -> bool {
    exists|k: int| 0 <= k < d.daemon_sans@.len()
        && (forall|j: int| 0 <= j < k ==> san_entry_error(#[trigger] d.daemon_sans@[j]@, d.targets@.map_values(|x: String| x@)) is None)
        && san_entry_error(d.daemon_sans@[k]@, d.targets@.map_values(|x: String| x@)) == Some(e)
}

/// The error the CA reuse flags give, if any.
pub open spec fn ca_source_error(r: ReuseCaArgs) -> Option<Seq<char>> {
    if r.reuse_ca_from_dir is Some && (r.reuse_ca_cert_pem is Some || r.reuse_ca_key_pem is Some) {
        Some("cannot combine --reuse-ca-from-dir with --reuse-ca-cert-pem/--reuse-ca-key-pem"@)
    } else if r.reuse_ca_from_dir is Some {
        None
    } else {
        match (r.reuse_ca_cert_pem, r.reuse_ca_key_pem) {
            (Some(_), None) => Some("--reuse-ca-cert-pem requires --reuse-ca-key-pem"@),
            (None, Some(_)) => Some("--reuse-ca-key-pem requires --reuse-ca-cert-pem"@),
            _ => None,
        }
    }
}

/// Whether `ca` is the source that flags `r`, which give no error, select.
pub open spec fn ca_source_selected(r: ReuseCaArgs, ca: CaSource) -> bool {
    if r.reuse_ca_from_dir is Some {
        ca matches CaSource::FromDir(d) && d@ == r.reuse_ca_from_dir->0@
    } else {
        match (r.reuse_ca_cert_pem, r.reuse_ca_key_pem) {
            (Some(c), Some(k)) => ca matches CaSource::FromFiles { cert_pem, key_pem } && cert_pem@ == c@ && key_pem@ == k@,
            _ => ca is Generate,
        }
    }
}

/// What a `certs` subcommand is to do, once its arguments check out.
/// Reading a CA, generating keys and writing files are the caller's part.
pub enum CertsPlan {
    /// Issue a CA (or reuse one), a broker pair and these daemon pairs.
    DevInit {
        out_dir: String,
        broker_common_name: String,
        force: bool,
        ca: CaSource,
        daemon_specs: Vec<DaemonCertRequest>,
    },
    InitCa(InitCaArgs),
    IssueBroker(IssueBrokerArgs),
    /// Load the CA, then read the SANs with `parse_daemon_sans` and issue.
    IssueDaemon(IssueDaemonArgs),
}

/// Checks a `certs` subcommand's arguments and says what it is to do:
/// `dev-init` first checks its daemon SANs, then its CA flags.
pub fn run(args: CertsArgs) -> (res: Result<CertsPlan, String>)
    ensures
        match args.command {
            CertsCommand::DevInit(d) => if !san_entries_ok(d) {
                res matches Err(e) && first_san_error(d, e@)
            } else if d.targets@.len() == 0 {
                res matches Err(e) && e@ == "at least one --target is required"@
            } else if ca_source_error(d.reuse_ca) is Some {
                res matches Err(e) && Some(e@) == ca_source_error(d.reuse_ca)
            } else {
                res matches Ok(CertsPlan::DevInit { out_dir, broker_common_name, force, ca, daemon_specs })
                    && out_dir == d.out_dir && broker_common_name == d.broker_common_name && force == d.force
                    && ca_source_selected(d.reuse_ca, ca)
                    && daemon_specs@.len() == d.targets@.len()
                    && forall|i: int| 0 <= i < daemon_specs@.len() ==> request_ok(#[trigger] daemon_specs@[i],
                        d.daemon_sans@.map_values(|x: String| x@), d.targets@.map_values(|x: String| x@), i)
            },
            CertsCommand::InitCa(a) => res matches Ok(CertsPlan::InitCa(b)) && b == a,
            CertsCommand::IssueBroker(a) => res matches Ok(CertsPlan::IssueBroker(b)) && b == a,
            CertsCommand::IssueDaemon(a) => res matches Ok(CertsPlan::IssueDaemon(b)) && b == a,
        },
{
    match args.command {
        CertsCommand::DevInit(d) => {
            let daemon_specs = match build_daemon_specs(&d) {
                Ok(specs) => specs,
                Err(e) => {
                    proof {
                        if san_entries_ok(d) {
                            if exists|k: int| 0 <= k < d.daemon_sans@.len()
                                && (forall|j: int| 0 <= j < k ==> san_entry_error(#[trigger] d.daemon_sans@[j]@, d.targets@.map_values(|x: String| x@)) is None)
                                && san_entry_error(d.daemon_sans@[k]@, d.targets@.map_values(|x: String| x@)) == Some(e@) {
                                let k = choose|k: int| 0 <= k < d.daemon_sans@.len()
                                    && (forall|j: int| 0 <= j < k ==> san_entry_error(#[trigger] d.daemon_sans@[j]@, d.targets@.map_values(|x: String| x@)) is None)
                                    && san_entry_error(d.daemon_sans@[k]@, d.targets@.map_values(|x: String| x@)) == Some(e@);
                                assert(san_entry_error(d.daemon_sans@[k]@, d.targets@.map_values(|x: String| x@)) is None);
                            }
                        }
                    }
                    return Err(e);
                },
            };
            let ca = match resolve_dev_init_ca(&d.reuse_ca) {
                Ok(ca) => ca,
                Err(e) => return Err(e),
            };
            Ok(CertsPlan::DevInit {
                out_dir: d.out_dir,
                broker_common_name: d.broker_common_name,
                force: d.force,
                ca,
                daemon_specs,
            })
        },
        CertsCommand::InitCa(a) => Ok(CertsPlan::InitCa(a)),
        CertsCommand::IssueBroker(a) => Ok(CertsPlan::IssueBroker(a)),
        CertsCommand::IssueDaemon(a) => Ok(CertsPlan::IssueDaemon(a)),
    }
}

} // verus!
