//! Website and application blocking.
//!
//! Website rules are enforced when applied: the hosts file gets entries that
//! point the domain at the loopback address, and its content before the first
//! such change is kept once, to be written back on shutdown. Application rules
//! are enforced on every cycle of a reconciliation loop: each live process whose
//! lowercased name contains the pattern of an active `block` rule is terminated.
//! Reading and writing files, terminating processes and the loop's timing are
//! the caller's; this module decides what to write, what to keep and what to kill.

use vstd::prelude::*;
use crate::clock::now_millis;
use crate::json::{JsonValue, keys_of, values_of, req_str, field, bool_value, opt_views, print_json, json_print};
use crate::events::{key, CommandPayload};
pub use crate::events::CommandReply;
use crate::client::SocketClient;
use crate::text::{
    chars_of, string_of, push_str, push_decimal, decimal, same_text, contains, occurs_in, has_prefix, starts_with,
    lowercase, lower_of, split_lines, lines, join_lines, trim_end, trim_end_len, sub_chars,
};

verus! {

/// A blocking rule: `rule_type` is `website` or `application`, `mode` is `block` or `allow`.
#[derive(Debug)]
pub struct BlockingRule {
    pub id: String,
    pub rule_type: String,
    pub pattern: String,
    pub mode: String,
    pub active: bool,
}

pub open spec fn rule_fields(v: JsonValue) -> Option<(Seq<char>, Seq<char>, Seq<char>, Seq<char>, bool)> {
    if v is Object {
        match (req_str(v, "id"@), req_str(v, "type"@), req_str(v, "pattern"@), req_str(v, "mode"@), field(v, "active"@)) {
            (Some(i), Some(t), Some(p), Some(m), Some(a)) => match bool_value(a) {
                Some(b) => Some((i, t, p, m, b)),
                None => None,
            },
            _ => None,
        }
    } else {
        None
    }
}

pub open spec fn rule_view(r: BlockingRule) -> (Seq<char>, Seq<char>, Seq<char>, Seq<char>, bool) {
    (r.id@, r.rule_type@, r.pattern@, r.mode@, r.active)
}

/// The JSON object of a rule.
pub open spec fn rule_json(j: JsonValue, r: BlockingRule) -> bool {
    &&& j is Object
    &&& keys_of(j) == seq!["id"@, "type"@, "pattern"@, "mode"@, "active"@]
    &&& values_of(j) == seq![
        JsonValue::Str(r.id), JsonValue::Str(r.rule_type), JsonValue::Str(r.pattern), JsonValue::Str(r.mode),
        JsonValue::Bool(r.active),
    ]
}

impl BlockingRule {
    /// An equal copy.
    pub fn copy(&self) -> (r: BlockingRule)
        ensures
            r == *self,
    {
        BlockingRule {
            id: self.id.clone(),
            rule_type: self.rule_type.clone(),
            pattern: self.pattern.clone(),
            mode: self.mode.clone(),
            active: self.active,
        }
    }

    pub fn from_json(v: &JsonValue) -> (r: Option<BlockingRule>)
        ensures
            match r {
                Some(x) => rule_fields(*v) == Some(rule_view(x)),
                None => rule_fields(*v) is None,
            },
    {
        if !v.is_object() {
            return None;
        }
        let active = match v.get("active") {
            Some(a) => match a.as_bool() {
                Some(b) => b,
                None => return None,
            },
            None => return None,
        };
        match (v.req_str("id"), v.req_str("type"), v.req_str("pattern"), v.req_str("mode")) {
            (Some(id), Some(rule_type), Some(pattern), Some(mode)) => Some(BlockingRule { id, rule_type, pattern, mode, active }),
            _ => None,
        }
    }

    pub fn to_json(&self) -> (r: JsonValue)
        ensures
            rule_json(r, *self),
    {
        let r = JsonValue::Object(vec![
            (key("id"), JsonValue::Str(self.id.clone())),
            (key("type"), JsonValue::Str(self.rule_type.clone())),
            (key("pattern"), JsonValue::Str(self.pattern.clone())),
            (key("mode"), JsonValue::Str(self.mode.clone())),
            (key("active"), JsonValue::Bool(self.active)),
        ]);
        assert(keys_of(r) =~= seq!["id"@, "type"@, "pattern"@, "mode"@, "active"@]);
        assert(values_of(r) =~= seq![
            JsonValue::Str(self.id), JsonValue::Str(self.rule_type), JsonValue::Str(self.pattern), JsonValue::Str(self.mode),
            JsonValue::Bool(self.active),
        ]);
        r
    }
}

/// Reads a list of rules; `None` unless `v` is an array of well-formed rules.
pub fn rules_from_json(v: &JsonValue) -> (r: Option<Vec<BlockingRule>>)
    ensures
        match r {
            Some(rs) => v is Array && rs@.len() == v->Array_0@.len()
                && forall|i: int| 0 <= i < rs@.len() ==> rule_fields(v->Array_0@[i]) == Some(rule_view(#[trigger] rs@[i])),
            None => !(v is Array && forall|i: int| 0 <= i < v->Array_0@.len() ==> (#[trigger] rule_fields(v->Array_0@[i])) is Some),
        },
{
    match v {
        JsonValue::Array(items) => {
            let mut out: Vec<BlockingRule> = Vec::new();
            let mut i: usize = 0;
            while i < items.len()
                invariant
                    *v == JsonValue::Array(*items),
                    0 <= i <= items.len(),
                    out@.len() == i,
                    forall|k: int| 0 <= k < i ==> rule_fields(items@[k]) == Some(rule_view(#[trigger] out@[k])),
                decreases items.len() - i,
            {
                match BlockingRule::from_json(&items[i]) {
                    Some(x) => out.push(x),
                    None => return None,
                }
                i = i + 1;
            }
            Some(out)
        },
        _ => None,
    }
}

/// Prints rules as a JSON array of rule objects.
pub fn rules_to_json(rules: &Vec<BlockingRule>) -> (r: JsonValue)
    ensures
        r is Array,
        r->Array_0@.len() == rules@.len(),
        forall|i: int| 0 <= i < rules@.len() ==> rule_json(#[trigger] r->Array_0@[i], rules@[i]),
{
    let mut items: Vec<JsonValue> = Vec::new();
    let mut i: usize = 0;
    while i < rules.len()
        invariant
            0 <= i <= rules@.len(),
            items@.len() == i,
            forall|k: int| 0 <= k < i ==> rule_json(#[trigger] items@[k], rules@[k]),
        decreases rules.len() - i,
    {
        items.push(rules[i].to_json());
        i = i + 1;
    }
    JsonValue::Array(items)
}

/// The hosts entry that blocks `domain`.
pub open spec fn block_entry(domain: Seq<char>) -> Seq<char> {
    "127.0.0.1 "@ + domain
}

/// The hosts content after blocking `domain`: the old content without trailing
/// whitespace, then a marker comment and entries for the domain and its `www.` form.
pub open spec fn blocked_hosts(hosts: Seq<char>, domain: Seq<char>) -> Seq<char> {
    trim_end(hosts) + "\n# NetWatch Block\n127.0.0.1 "@ + domain + "\n127.0.0.1 www."@ + domain + "\n"@
}

/// Whether a hosts line stays when `domain` is unblocked: it goes when it starts
/// with `127.0.0.1` and mentions the domain, case aside.
pub open spec fn keeps_line(line: Seq<char>, domain: Seq<char>) -> bool {
    !(occurs_in(lower_of(line), lower_of(domain)) && has_prefix(line, "127.0.0.1"@))
}

pub open spec fn kept_lines(ls: Seq<Seq<char>>, domain: Seq<char>) -> Seq<Seq<char>>
    decreases ls.len(),
{
    if ls.len() == 0 {
        Seq::empty()
    } else {
        let prev = kept_lines(ls.drop_last(), domain);
        if keeps_line(ls.last(), domain) { prev.push(ls.last()) } else { prev }
    }
}

/// The hosts content after unblocking `domain`: its kept lines joined with `\n`.
pub open spec fn unblocked_hosts(hosts: Seq<char>, domain: Seq<char>) -> Seq<char> {
    join_lines(kept_lines(lines(hosts), domain))
}

/// What to do with the hosts file to block a domain.
#[derive(Debug)]
pub enum HostsPlan {
    /// The file could not be read; the block fails.
    Unreadable,
    /// The entry is there already; the block succeeds without a write.
    AlreadyBlocked,
    /// Write this content; the block succeeds if the write does.
    Write(String),
}

/// Processes as the enforcement loop sees them.
#[derive(Debug)]
pub struct ProcessEntry {
    pub pid: u32,
    pub name: String,
}

/// What stopping the service leaves to do.
#[derive(Debug)]
pub struct StopActions {
    /// The enforcement loop was running and must be cancelled.
    pub cancel_loop: bool,
    /// The hosts content to write back, if a backup was taken.
    pub restore_hosts: Option<String>,
}

/// The blocking service's state.
#[derive(Debug)]
pub struct BlockingService {
    pub website_rules: Vec<BlockingRule>,
    pub application_rules: Vec<BlockingRule>,
    pub hosts_backup: Option<String>,
    pub is_running: bool,
}

/// Whether a rule's pattern names `name`, case aside.
pub open spec fn same_pattern(r: BlockingRule, name: Seq<char>) -> bool {
    lower_of(r.pattern@) == lower_of(name)
}

/// The rules whose pattern does not name `name`, in order.
pub open spec fn without_pattern(rs: Seq<BlockingRule>, name: Seq<char>) -> Seq<BlockingRule>
    decreases rs.len(),
{
    if rs.len() == 0 {
        Seq::empty()
    } else {
        let prev = without_pattern(rs.drop_last(), name);
        if same_pattern(rs.last(), name) { prev } else { prev.push(rs.last()) }
    }
}

/// The rules of type `t`, in order.
pub open spec fn of_type(rs: Seq<BlockingRule>, t: Seq<char>) -> Seq<BlockingRule>
    decreases rs.len(),
{
    if rs.len() == 0 {
        Seq::empty()
    } else {
        let prev = of_type(rs.drop_last(), t);
        if rs.last().rule_type@ == t { prev.push(rs.last()) } else { prev }
    }
}

/// Whether a rule blocks while active.
pub open spec fn enforced(r: BlockingRule) -> bool {
    r.active && r.mode@ == "block"@
}

/// The patterns of the enforced website rules, in order: what applying a rule set writes.
pub open spec fn enforced_patterns(rs: Seq<BlockingRule>) -> Seq<Seq<char>>
    decreases rs.len(),
{
    if rs.len() == 0 {
        Seq::empty()
    } else {
        let prev = enforced_patterns(rs.drop_last());
        if enforced(rs.last()) { prev.push(rs.last().pattern@) } else { prev }
    }
}

/// The rule id `<prefix>-<millis>`.
pub open spec fn rule_id(prefix: Seq<char>, millis: u64) -> Seq<char> {
    prefix + "-"@ + decimal(millis as nat)
}

impl BlockingService {
    pub fn new() -> (r: BlockingService)
        ensures
            r.website_rules@.len() == 0,
            r.application_rules@.len() == 0,
            r.hosts_backup is None,
            !r.is_running,
    {
        BlockingService { website_rules: Vec::new(), application_rules: Vec::new(), hosts_backup: None, is_running: false }
    }

    /// Marks the service running; `true` when the caller must start the
    /// enforcement loop, `false` when it runs already.
    pub fn start(&mut self) -> (r: bool)
        ensures
            r == !old(self).is_running,
            final(self).is_running,
            final(self).website_rules == old(self).website_rules,
            final(self).application_rules == old(self).application_rules,
            final(self).hosts_backup == old(self).hosts_backup,
    {
        if self.is_running {
            return false;
        }
        self.is_running = true;
        true
    }

    /// Marks the service stopped and says what teardown remains: cancelling the
    /// loop if it ran, and writing back the hosts backup if one was taken. Safe
    /// to call in any state.
    pub fn stop(&mut self) -> (r: StopActions)
        ensures
            stopped(*old(self), *final(self), r),
    {
        let cancel_loop = self.is_running;
        self.is_running = false;
        StopActions { cancel_loop, restore_hosts: self.restore_hosts_file() }
    }

    /// The content to write back to the hosts file: the backup, if any.
    pub fn restore_hosts_file(&self) -> (r: Option<String>)
        ensures
            opt_views(r) == opt_views(self.hosts_backup),
    {
        match &self.hosts_backup {
            Some(b) => Some(b.clone()),
            None => None,
        }
    }

    /// First part of blocking a website, given the hosts file's content (`None`
    /// when it could not be read): takes the backup if none was taken yet, and
    /// says what to write.
    pub fn block_website(&mut self, domain: &str, hosts: Option<String>) -> (r: HostsPlan)
        ensures
            final(self).hosts_backup == backup_after(old(self).hosts_backup, hosts),
            final(self).website_rules == old(self).website_rules,
            final(self).application_rules == old(self).application_rules,
            final(self).is_running == old(self).is_running,
            match hosts {
                None => r is Unreadable,
                Some(h) => if occurs_in(h@, block_entry(domain@)) {
                    r is AlreadyBlocked
                } else {
                    r is Write && r->Write_0@ == blocked_hosts(h@, domain@)
                },
            },
    {
        let plan = match &hosts {
            None => HostsPlan::Unreadable,
            Some(h) => {
                let mut entry = chars_of("127.0.0.1 ");
                push_str(&mut entry, domain);
                let entry = string_of(&entry);
                if contains(h.as_str(), entry.as_str()) {
                    HostsPlan::AlreadyBlocked
                } else {
                    let hv = chars_of(h.as_str());
                    let n = trim_end_len(&hv);
                    let mut out = sub_chars(&hv, 0, n);
                    push_str(&mut out, "\n# NetWatch Block\n127.0.0.1 ");
                    push_str(&mut out, domain);
                    push_str(&mut out, "\n127.0.0.1 www.");
                    push_str(&mut out, domain);
                    push_str(&mut out, "\n");
                    assert(out@ =~= blocked_hosts(h@, domain@));
                    HostsPlan::Write(string_of(&out))
                }
            },
        };
        if self.hosts_backup.is_none() {
            self.hosts_backup = hosts;
        }
        plan
    }

    /// Second part of blocking a website, once its hosts entries are written:
    /// records an active `block` rule for it.
    pub fn confirm_website_block(&mut self, domain: &str)
        ensures
            final(self).website_rules@.len() == old(self).website_rules@.len() + 1,
            final(self).website_rules@.drop_last() == old(self).website_rules@,
            final(self).website_rules@.last().rule_type@ == "website"@,
            final(self).website_rules@.last().pattern@ == domain@,
            final(self).website_rules@.last().mode@ == "block"@,
            final(self).website_rules@.last().active,
            exists|ms: u64| final(self).website_rules@.last().id@ == #[trigger] rule_id("web"@, ms),
            final(self).application_rules == old(self).application_rules,
            final(self).hosts_backup == old(self).hosts_backup,
            final(self).is_running == old(self).is_running,
    {
        let rule = new_rule("web", "website", string_of(&chars_of(domain)), now_millis());
        self.website_rules.push(rule);
        assert(final(self).website_rules@.drop_last() =~= old(self).website_rules@);
    }

    /// First part of unblocking a website, given the hosts file's content: the
    /// content without the domain's loopback lines, or `None` if it was unreadable.
    pub fn unblock_website(domain: &str, hosts: Option<String>) -> (r: Option<String>)
        ensures
            match hosts {
                None => r is None,
                Some(h) => r is Some && r->0@ == unblocked_hosts(h@, domain@),
            },
    {
        let h = match hosts {
            Some(h) => h,
            None => return None,
        };
        let ls = split_lines(h.as_str());
        let ghost lv = ls@.map_values(|l: String| l@);
        let lower_domain = lowercase(domain);
        let mut out: Vec<char> = Vec::new();
        let mut any_kept = false;
        let mut i: usize = 0;
        assert(lv.subrange(0, 0) =~= Seq::<Seq<char>>::empty());
        while i < ls.len()
            invariant
                lv == ls@.map_values(|l: String| l@),
                lv == lines(h@),
                lower_domain@ == lower_of(domain@),
                0 <= i <= ls.len(),
                any_kept == (kept_lines(lv.subrange(0, i as int), domain@).len() > 0),
                out@ == join_lines(kept_lines(lv.subrange(0, i as int), domain@)),
            decreases ls.len() - i,
        {
            let line = &ls[i];
            let ghost prev = kept_lines(lv.subrange(0, i as int), domain@);
            assert(lv.subrange(0, i + 1).drop_last() =~= lv.subrange(0, i as int));
            assert(lv.subrange(0, i + 1).last() == line@);
            let lower_line = lowercase(line.as_str());
            let drop = contains(lower_line.as_str(), lower_domain.as_str()) && starts_with(line.as_str(), "127.0.0.1");
            if !drop {
                if any_kept {
                    out.push('\n');
                }
                push_str(&mut out, line.as_str());
                let ghost next = prev.push(line@);
                assert(next.drop_last() =~= prev);
                assert(out@ =~= join_lines(next));
                any_kept = true;
            }
            i = i + 1;
        }
        assert(lv.subrange(0, ls.len() as int) =~= lv);
        Some(string_of(&out))
    }

    /// Second part of unblocking a website, once the hosts file is written: drops
    /// the website rules whose pattern names the domain, case aside.
    pub fn confirm_website_unblock(&mut self, domain: &str)
        ensures
            final(self).website_rules@ == without_pattern(old(self).website_rules@, domain@),
            final(self).application_rules == old(self).application_rules,
            final(self).hosts_backup == old(self).hosts_backup,
            final(self).is_running == old(self).is_running,
    {
        let mut rules = Vec::new();
        std::mem::swap(&mut rules, &mut self.website_rules);
        self.website_rules = retain_other_patterns(rules, domain);
    }

    /// Adds an active `block` rule for applications whose name contains
    /// `process_name`, lowercased.
    pub fn block_application(&mut self, process_name: &str)
        ensures
            app_blocked(*old(self), *final(self), process_name@),
    {
        let rule = new_rule("app", "application", lowercase(process_name), now_millis());
        self.application_rules.push(rule);
        assert(final(self).application_rules@.drop_last() =~= old(self).application_rules@);
    }

    /// Drops the application rules whose pattern names `process_name`, case aside.
    pub fn unblock_application(&mut self, process_name: &str)
        ensures
            app_unblocked(*old(self), *final(self), process_name@),
    {
        let mut rules = Vec::new();
        std::mem::swap(&mut rules, &mut self.application_rules);
        self.application_rules = retain_other_patterns(rules, process_name);
    }

    /// The domains that applying `rules` blocks, in order: the patterns of the
    /// active `block` rules of type `website`.
    pub fn websites_to_block(rules: &Vec<BlockingRule>) -> (r: Vec<String>)
        ensures
            r@.map_values(|s: String| s@) == enforced_patterns(of_type(rules@, "website"@)),
    {
        let web = filter_type(rules, "website");
        let mut out: Vec<String> = Vec::new();
        let mut i: usize = 0;
        assert(web@.subrange(0, 0) =~= Seq::<BlockingRule>::empty());
        while i < web.len()
            invariant
                0 <= i <= web@.len(),
                web@ == of_type(rules@, "website"@),
                out@.map_values(|s: String| s@) == enforced_patterns(web@.subrange(0, i as int)),
            decreases web.len() - i,
        {
            let ghost before = out@;
            assert(web@.subrange(0, i + 1).drop_last() =~= web@.subrange(0, i as int));
            assert(web@.subrange(0, i + 1).last() == web@[i as int]);
            if web[i].active && same_text(web[i].mode.as_str(), "block") {
                out.push(web[i].pattern.clone());
                assert(out@.map_values(|s: String| s@) =~= before.map_values(|s: String| s@).push(web@[i as int].pattern@));
            }
            i = i + 1;
        }
        assert(web@.subrange(0, web.len() as int) =~= web@);
        out
    }

    /// Replaces both rule lists with the rules of `rules`, split by type and in
    /// order; rules of other types are dropped. Returns the websites whose hosts
    /// entries the caller must then write, in order: the patterns of the active
    /// `block` website rules.
    pub fn set_rules(&mut self, rules: Vec<BlockingRule>) -> (r: Vec<String>)
        ensures
            rules_set(*old(self), *final(self), rules@),
            r@.map_values(|s: String| s@) == enforced_patterns(of_type(rules@, "website"@)),
    {
        let domains = Self::websites_to_block(&rules);
        self.website_rules = filter_type(&rules, "website");
        self.application_rules = filter_type(&rules, "application");
        domains
    }

    /// The website rules, then the application rules.
    pub fn get_rules(&self) -> (r: Vec<BlockingRule>)
        ensures
            r@ == self.website_rules@ + self.application_rules@,
    {
        let mut out: Vec<BlockingRule> = Vec::new();
        let mut i: usize = 0;
        while i < self.website_rules.len()
            invariant
                0 <= i <= self.website_rules@.len(),
                out@ == self.website_rules@.subrange(0, i as int),
            decreases self.website_rules.len() - i,
        {
            out.push(self.website_rules[i].copy());
            assert(out@ =~= self.website_rules@.subrange(0, i + 1));
            i = i + 1;
        }
        let mut j: usize = 0;
        while j < self.application_rules.len()
            invariant
                0 <= j <= self.application_rules@.len(),
                out@ == self.website_rules@ + self.application_rules@.subrange(0, j as int),
            decreases self.application_rules.len() - j,
        {
            out.push(self.application_rules[j].copy());
            assert(out@ =~= self.website_rules@ + self.application_rules@.subrange(0, j + 1));
            j = j + 1;
        }
        assert(self.application_rules@.subrange(0, self.application_rules@.len() as int) =~= self.application_rules@);
        out
    }
}

fn new_rule(prefix: &str, rule_type: &str, pattern: String, millis: u64) -> (r: BlockingRule)
    ensures
        r.id@ == rule_id(prefix@, millis),
        r.rule_type@ == rule_type@,
        r.pattern == pattern,
        r.mode@ == "block"@,
        r.active,
{
    let mut id = chars_of(prefix);
    push_str(&mut id, "-");
    push_decimal(&mut id, millis);
    BlockingRule {
        id: string_of(&id),
        rule_type: string_of(&chars_of(rule_type)),
        pattern,
        mode: string_of(&chars_of("block")),
        active: true,
    }
}

fn filter_type(rules: &Vec<BlockingRule>, t: &str) -> (r: Vec<BlockingRule>)
    ensures
        r@ == of_type(rules@, t@),
{
    let mut out: Vec<BlockingRule> = Vec::new();
    let mut i: usize = 0;
    assert(rules@.subrange(0, 0) =~= Seq::<BlockingRule>::empty());
    while i < rules.len()
        invariant
            0 <= i <= rules@.len(),
            out@ == of_type(rules@.subrange(0, i as int), t@),
        decreases rules.len() - i,
    {
        assert(rules@.subrange(0, i + 1).drop_last() =~= rules@.subrange(0, i as int));
        assert(rules@.subrange(0, i + 1).last() == rules@[i as int]);
        if same_text(rules[i].rule_type.as_str(), t) {
            out.push(rules[i].copy());
        }
        i = i + 1;
    }
    assert(rules@.subrange(0, rules.len() as int) =~= rules@);
    out
}

fn retain_other_patterns(rules: Vec<BlockingRule>, name: &str) -> (r: Vec<BlockingRule>)
    ensures
        r@ == without_pattern(rules@, name@),
{
    let lower_name = lowercase(name);
    let mut out: Vec<BlockingRule> = Vec::new();
    let mut i: usize = 0;
    assert(rules@.subrange(0, 0) =~= Seq::<BlockingRule>::empty());
    while i < rules.len()
        invariant
            0 <= i <= rules@.len(),
            lower_name@ == lower_of(name@),
            out@ == without_pattern(rules@.subrange(0, i as int), name@),
        decreases rules.len() - i,
    {
        assert(rules@.subrange(0, i + 1).drop_last() =~= rules@.subrange(0, i as int));
        assert(rules@.subrange(0, i + 1).last() == rules@[i as int]);
        let lp = lowercase(rules[i].pattern.as_str());
        if !same_text(lp.as_str(), lower_name.as_str()) {
            out.push(rules[i].copy());
        }
        i = i + 1;
    }
    assert(rules@.subrange(0, rules.len() as int) =~= rules@);
    out
}


/// The lowercased patterns of the enforced rules, in order.
pub open spec fn enforced_lower(rs: Seq<BlockingRule>) -> Seq<Seq<char>>
    decreases rs.len(),
{
    if rs.len() == 0 {
        Seq::empty()
    } else {
        let prev = enforced_lower(rs.drop_last());
        if enforced(rs.last()) { prev.push(lower_of(rs.last().pattern@)) } else { prev }
    }
}

/// Whether a process name, lowercased, contains one of the patterns.
pub open spec fn blocked_name(name: Seq<char>, pats: Seq<Seq<char>>) -> bool {
    exists|j: int| 0 <= j < pats.len() && occurs_in(lower_of(name), #[trigger] pats[j])
}

/// The pids of the processes that the patterns block, in snapshot order.
pub open spec fn targets(ps: Seq<ProcessEntry>, pats: Seq<Seq<char>>) -> Seq<u32>
    decreases ps.len(),
{
    if ps.len() == 0 {
        Seq::empty()
    } else {
        let prev = targets(ps.drop_last(), pats);
        if blocked_name(ps.last().name@, pats) { prev.push(ps.last().pid) } else { prev }
    }
}

proof fn lemma_enforced_listed(rs: Seq<BlockingRule>, i: int)
    requires
        0 <= i < rs.len(),
        enforced(rs[i]),
    ensures
        exists|j: int| 0 <= j < enforced_lower(rs).len() && #[trigger] enforced_lower(rs)[j] == lower_of(rs[i].pattern@),
    decreases rs.len(),
{
    let prev = enforced_lower(rs.drop_last());
    if i == rs.len() - 1 {
        assert(enforced_lower(rs)[prev.len() as int] == lower_of(rs[i].pattern@));
    } else {
        assert(rs.drop_last()[i] == rs[i]);
        lemma_enforced_listed(rs.drop_last(), i);
        let j = choose|j: int| 0 <= j < prev.len() && #[trigger] prev[j] == lower_of(rs[i].pattern@);
        assert(enforced_lower(rs)[j] == prev[j]);
    }
}

proof fn lemma_target_listed(ps: Seq<ProcessEntry>, pats: Seq<Seq<char>>, k: int)
    requires
        0 <= k < ps.len(),
        blocked_name(ps[k].name@, pats),
    ensures
        exists|j: int| 0 <= j < targets(ps, pats).len() && #[trigger] targets(ps, pats)[j] == ps[k].pid,
    decreases ps.len(),
{
    let prev = targets(ps.drop_last(), pats);
    if k == ps.len() - 1 {
        assert(targets(ps, pats)[prev.len() as int] == ps[k].pid);
    } else {
        assert(ps.drop_last()[k] == ps[k]);
        lemma_target_listed(ps.drop_last(), pats, k);
        let j = choose|j: int| 0 <= j < prev.len() && #[trigger] prev[j] == ps[k].pid;
        assert(targets(ps, pats)[j] == prev[j]);
    }
}

/// A cycle of application enforcement reaches every blocked process: when the
/// lowercased pattern of an active `block` rule occurs in the lowercased name of
/// a process in the snapshot, that process's pid is among the pids the cycle
/// terminates.
pub proof fn law_blocked_process_targeted(rules: Seq<BlockingRule>, snapshot: Seq<ProcessEntry>, i: int, k: int)
    requires
        0 <= i < rules.len(),
        enforced(rules[i]),
        0 <= k < snapshot.len(),
        occurs_in(lower_of(snapshot[k].name@), lower_of(rules[i].pattern@)),
    ensures
        targets(snapshot, enforced_lower(rules)).contains(snapshot[k].pid),
{
    let pats = enforced_lower(rules);
    lemma_enforced_listed(rules, i);
    let j = choose|j: int| 0 <= j < pats.len() && #[trigger] pats[j] == lower_of(rules[i].pattern@);
    assert(occurs_in(lower_of(snapshot[k].name@), pats[j]));
    lemma_target_listed(snapshot, pats, k);
}

/// A cycle whose snapshot holds no blocked process terminates nothing.
pub proof fn law_no_match_no_targets(snapshot: Seq<ProcessEntry>, pats: Seq<Seq<char>>)
    requires
        forall|k: int| 0 <= k < snapshot.len() ==> !blocked_name(#[trigger] snapshot[k].name@, pats),
    ensures
        targets(snapshot, pats).len() == 0,
    decreases snapshot.len(),
{
    if snapshot.len() > 0 {
        assert forall|k: int| 0 <= k < snapshot.drop_last().len() implies !blocked_name(
            #[trigger] snapshot.drop_last()[k].name@,
            pats,
        ) by {
            assert(snapshot.drop_last()[k] == snapshot[k]);
        }
        law_no_match_no_targets(snapshot.drop_last(), pats);
        assert(!blocked_name(snapshot[snapshot.len() - 1].name@, pats));
    }
}

#[verifier::external_type_specification]
#[verifier::external_body]
pub struct ExSystem(sysinfo::System);

/// Relies on `sysinfo::System::refresh_processes`, then `System::processes` with each
/// process's `Pid::as_u32` and `Process::name`: the live processes, in the table's order.
#[verifier::external_body]
fn live_processes(system: &mut sysinfo::System) -> Vec<ProcessEntry> {
    system.refresh_processes();
    system.processes().iter().map(|(pid, p)| ProcessEntry { pid: pid.as_u32(), name: p.name().to_string() }).collect()
}

/// Relies on `sysinfo::System::process` and `Process::kill`: sends the kill signal to
/// the process, if it is still there; whether the signal went out.
#[verifier::external_body]
fn kill_process(system: &sysinfo::System, pid: u32) -> bool {
    match system.process(sysinfo::Pid::from_u32(pid)) {
        Some(p) => p.kill(),
        None => false,
    }
}

/// The pids among `processes` whose lowercased name contains one of `patterns`.
pub fn processes_to_terminate(patterns: &Vec<String>, processes: &Vec<ProcessEntry>) -> (r: Vec<u32>)
    ensures
        r@ == targets(processes@, patterns@.map_values(|s: String| s@)),
{
    let ghost pats = patterns@.map_values(|s: String| s@);
    let mut out: Vec<u32> = Vec::new();
    let mut i: usize = 0;
    assert(processes@.subrange(0, 0) =~= Seq::<ProcessEntry>::empty());
    while i < processes.len()
        invariant
            pats == patterns@.map_values(|s: String| s@),
            0 <= i <= processes@.len(),
            out@ == targets(processes@.subrange(0, i as int), pats),
        decreases processes.len() - i,
    {
        assert(processes@.subrange(0, i + 1).drop_last() =~= processes@.subrange(0, i as int));
        assert(processes@.subrange(0, i + 1).last() == processes@[i as int]);
        let name = lowercase(processes[i].name.as_str());
        let mut hit = false;
        let mut j: usize = 0;
        while j < patterns.len()
            invariant
                pats == patterns@.map_values(|s: String| s@),
                name@ == lower_of(processes@[i as int].name@),
                0 <= j <= patterns@.len(),
                hit == exists|k: int| 0 <= k < j && occurs_in(name@, #[trigger] pats[k]),
            decreases patterns.len() - j,
        {
            assert(pats[j as int] == patterns@[j as int]@);
            if contains(name.as_str(), patterns[j].as_str()) {
                hit = true;
            }
            j = j + 1;
        }
        if hit {
            out.push(processes[i].pid);
        }
        i = i + 1;
    }
    assert(processes@.subrange(0, processes.len() as int) =~= processes@);
    out
}

impl BlockingService {
    /// The lowercased patterns of the active `block` application rules.
    pub fn blocked_patterns(&self) -> (r: Vec<String>)
        ensures
            r@.map_values(|s: String| s@) == enforced_lower(self.application_rules@),
    {
        let rules = &self.application_rules;
        let mut out: Vec<String> = Vec::new();
        let mut i: usize = 0;
        assert(rules@.subrange(0, 0) =~= Seq::<BlockingRule>::empty());
        while i < rules.len()
            invariant
                0 <= i <= rules@.len(),
                out@.map_values(|s: String| s@) == enforced_lower(rules@.subrange(0, i as int)),
            decreases rules.len() - i,
        {
            let ghost before = out@;
            assert(rules@.subrange(0, i + 1).drop_last() =~= rules@.subrange(0, i as int));
            assert(rules@.subrange(0, i + 1).last() == rules@[i as int]);
            if rules[i].active && same_text(rules[i].mode.as_str(), "block") {
                let l = lowercase(rules[i].pattern.as_str());
                out.push(l);
                assert(out@.map_values(|s: String| s@) =~= before.map_values(|s: String| s@).push(l@));
            }
            i = i + 1;
        }
        assert(rules@.subrange(0, rules.len() as int) =~= rules@);
        out
    }

    /// One cycle of application enforcement: with no enforced rule it does
    /// nothing; otherwise it takes a fresh snapshot of the live processes and
    /// sends the kill signal to every process the rules block. Returns the pids
    /// it targeted: those that the rules block in the snapshot it took.
    pub fn enforce_application_blocking(&self, system: &mut sysinfo::System) -> (r: Vec<u32>)
        ensures
            enforced_lower(self.application_rules@).len() == 0 ==> r@.len() == 0,
            enforced_lower(self.application_rules@).len() > 0 ==> exists|snapshot: Seq<ProcessEntry>|
                r@ == targets(snapshot, enforced_lower(self.application_rules@)),
    {
        let patterns = self.blocked_patterns();
        if patterns.len() == 0 {
            return Vec::new();
        }
        let processes = live_processes(system);
        let pids = processes_to_terminate(&patterns, &processes);
        let mut i: usize = 0;
        while i < pids.len()
            invariant
                0 <= i <= pids@.len(),
            decreases pids.len() - i,
        {
            kill_process(system, pids[i]);
            i = i + 1;
        }
        pids
    }
}


/// The backup after a block that read `hosts`: taken from the first readable content, kept after.
pub open spec fn backup_after(b: Option<String>, hosts: Option<String>) -> Option<String> {
    if b is None { hosts } else { b }
}

/// The backup after a series of blocks, each of which read one of `reads`.
pub open spec fn backup_after_all(b: Option<String>, reads: Seq<Option<String>>) -> Option<String>
    decreases reads.len(),
{
    if reads.len() == 0 {
        b
    } else {
        backup_after(backup_after_all(b, reads.drop_last()), reads.last())
    }
}

/// What `stop` does.
pub open spec fn stopped(s0: BlockingService, s1: BlockingService, r: StopActions) -> bool {
    &&& !s1.is_running
    &&& r.cancel_loop == s0.is_running
    &&& opt_views(r.restore_hosts) == opt_views(s0.hosts_backup)
    &&& s1.hosts_backup == s0.hosts_backup
    &&& s1.website_rules == s0.website_rules
    &&& s1.application_rules == s0.application_rules
}

/// Stopping a service that never ran and never changed the hosts file leaves
/// nothing to tear down: no loop to cancel, no file to write.
pub proof fn law_stop_unstarted(s0: BlockingService, s1: BlockingService, r: StopActions)
    requires
        !s0.is_running,
        s0.hosts_backup is None,
        stopped(s0, s1, r),
    ensures
        !r.cancel_loop,
        r.restore_hosts is None,
{
}

/// The hosts backup is written once: the first block that reads the file keeps
/// its content, and no later block replaces it, so restoring after any number of
/// block and unblock cycles gives back the content from before the first block.
/// (Unblocking and the other operations leave the backup as it is.)
pub proof fn law_backup_write_once(first: String, later: Seq<Option<String>>)
    ensures
        backup_after(None, Some(first)) == Some(first),
        backup_after_all(Some(first), later) == Some(first),
    decreases later.len(),
{
    if later.len() > 0 {
        law_backup_write_once(first, later.drop_last());
    }
}

/// A command for the blocking service.
#[derive(Debug)]
pub enum BlockingCommand {
    BlockWebsite(String),
    UnblockWebsite(String),
    BlockApplication(String),
    UnblockApplication(String),
    SetRules(Vec<BlockingRule>),
    GetRules,
}

/// A string member of a command's payload.
pub open spec fn payload_str(p: Option<JsonValue>, k: Seq<char>) -> Option<Seq<char>> {
    match p {
        Some(v) => match field(v, k) {
            Some(x) => crate::json::str_value(x),
            None => None,
        },
        None => None,
    }
}

/// Whether the `rules` member of a command's payload is a list of well-formed rules.
pub open spec fn payload_rules_ok(p: Option<JsonValue>) -> bool {
    match p {
        Some(v) => match field(v, "rules"@) {
            Some(JsonValue::Array(items)) => forall|i: int| 0 <= i < items@.len() ==> (#[trigger] rule_fields(items@[i])) is Some,
            _ => false,
        },
        None => false,
    }
}

/// Whether the blocking service acts on a command.
pub open spec fn understood(c: Seq<char>, p: Option<JsonValue>) -> bool {
    ||| c == "BLOCK_WEBSITE"@ && payload_str(p, "domain"@) is Some
    ||| c == "UNBLOCK_WEBSITE"@ && payload_str(p, "domain"@) is Some
    ||| c == "BLOCK_APPLICATION"@ && payload_str(p, "processName"@) is Some
    ||| c == "UNBLOCK_APPLICATION"@ && payload_str(p, "processName"@) is Some
    ||| c == "SET_BLOCKING_RULES"@ && payload_rules_ok(p)
    ||| c == "GET_BLOCKING_RULES"@
}

fn payload_member_str(p: &Option<JsonValue>, k: &str) -> (r: Option<String>)
    ensures
        opt_views(r) == payload_str(*p, k@),
{
    match p {
        Some(v) => match v.get(k) {
            Some(x) => x.as_text(),
            None => None,
        },
        None => None,
    }
}

impl BlockingCommand {
    /// Reads a command meant for the blocking service; other commands, and ones
    /// whose payload lacks what they need, give `None`.
    pub fn parse(cmd: &CommandPayload) -> (r: Option<BlockingCommand>)
        ensures
            match r {
                Some(BlockingCommand::BlockWebsite(d)) => cmd.command@ == "BLOCK_WEBSITE"@
                    && payload_str(cmd.payload, "domain"@) == Some(d@),
                Some(BlockingCommand::UnblockWebsite(d)) => cmd.command@ == "UNBLOCK_WEBSITE"@
                    && payload_str(cmd.payload, "domain"@) == Some(d@),
                Some(BlockingCommand::BlockApplication(n)) => cmd.command@ == "BLOCK_APPLICATION"@
                    && payload_str(cmd.payload, "processName"@) == Some(n@),
                Some(BlockingCommand::UnblockApplication(n)) => cmd.command@ == "UNBLOCK_APPLICATION"@
                    && payload_str(cmd.payload, "processName"@) == Some(n@),
                Some(BlockingCommand::SetRules(rs)) => cmd.command@ == "SET_BLOCKING_RULES"@
                    && payload_rules_ok(cmd.payload)
                    && rs@.len() == field(cmd.payload->0, "rules"@)->0->Array_0@.len()
                    && forall|i: int| 0 <= i < rs@.len() ==> rule_fields(field(cmd.payload->0, "rules"@)->0->Array_0@[i])
                        == Some(rule_view(#[trigger] rs@[i])),
                Some(BlockingCommand::GetRules) => cmd.command@ == "GET_BLOCKING_RULES"@,
                None => !understood(cmd.command@, cmd.payload),
            },
    {
        proof {
            reveal_strlit("BLOCK_WEBSITE");
            reveal_strlit("UNBLOCK_WEBSITE");
            reveal_strlit("BLOCK_APPLICATION");
            reveal_strlit("UNBLOCK_APPLICATION");
            reveal_strlit("SET_BLOCKING_RULES");
            reveal_strlit("GET_BLOCKING_RULES");
            assert("BLOCK_WEBSITE"@.len() == 13 && "UNBLOCK_WEBSITE"@.len() == 15 && "BLOCK_APPLICATION"@.len() == 17
                && "UNBLOCK_APPLICATION"@.len() == 19 && "SET_BLOCKING_RULES"@.len() == 18
                && "GET_BLOCKING_RULES"@.len() == 18);
            assert("SET_BLOCKING_RULES"@[0] != "GET_BLOCKING_RULES"@[0]);
        }
        let c = cmd.command.as_str();
        if same_text(c, "BLOCK_WEBSITE") {
            match payload_member_str(&cmd.payload, "domain") {
                Some(d) => Some(BlockingCommand::BlockWebsite(d)),
                None => None,
            }
        } else if same_text(c, "UNBLOCK_WEBSITE") {
            match payload_member_str(&cmd.payload, "domain") {
                Some(d) => Some(BlockingCommand::UnblockWebsite(d)),
                None => None,
            }
        } else if same_text(c, "BLOCK_APPLICATION") {
            match payload_member_str(&cmd.payload, "processName") {
                Some(n) => Some(BlockingCommand::BlockApplication(n)),
                None => None,
            }
        } else if same_text(c, "UNBLOCK_APPLICATION") {
            match payload_member_str(&cmd.payload, "processName") {
                Some(n) => Some(BlockingCommand::UnblockApplication(n)),
                None => None,
            }
        } else if same_text(c, "SET_BLOCKING_RULES") {
            match &cmd.payload {
                Some(v) => match v.get("rules") {
                    Some(rv) => match rules_from_json(rv) {
                        Some(rs) => {
                            assert forall|i: int| 0 <= i < rv->Array_0@.len() implies (#[trigger] rule_fields(
                                rv->Array_0@[i],
                            )) is Some by {
                                assert(rule_fields(rv->Array_0@[i]) == Some(rule_view(rs@[i])));
                            }
                            Some(BlockingCommand::SetRules(rs))
                        },
                        None => None,
                    },
                    None => None,
                },
                None => None,
            }
        } else if same_text(c, "GET_BLOCKING_RULES") {
            Some(BlockingCommand::GetRules)
        } else {
            None
        }
    }
}

/// What `block_application` does.
pub open spec fn app_blocked(s0: BlockingService, s1: BlockingService, name: Seq<char>) -> bool {
    &&& s1.application_rules@.len() == s0.application_rules@.len() + 1
    &&& s1.application_rules@.drop_last() == s0.application_rules@
    &&& s1.application_rules@.last().rule_type@ == "application"@
    &&& s1.application_rules@.last().pattern@ == lower_of(name)
    &&& s1.application_rules@.last().mode@ == "block"@
    &&& s1.application_rules@.last().active
    &&& exists|ms: u64| s1.application_rules@.last().id@ == #[trigger] rule_id("app"@, ms)
    &&& s1.website_rules == s0.website_rules
    &&& s1.hosts_backup == s0.hosts_backup
    &&& s1.is_running == s0.is_running
}

/// What `unblock_application` does.
pub open spec fn app_unblocked(s0: BlockingService, s1: BlockingService, name: Seq<char>) -> bool {
    &&& s1.application_rules@ == without_pattern(s0.application_rules@, name)
    &&& s1.website_rules == s0.website_rules
    &&& s1.hosts_backup == s0.hosts_backup
    &&& s1.is_running == s0.is_running
}

/// What `set_rules` does to the state.
pub open spec fn rules_set(s0: BlockingService, s1: BlockingService, rules: Seq<BlockingRule>) -> bool {
    &&& s1.website_rules@ == of_type(rules, "website"@)
    &&& s1.application_rules@ == of_type(rules, "application"@)
    &&& s1.hosts_backup == s0.hosts_backup
    &&& s1.is_running == s0.is_running
}

pub open spec fn unchanged(s0: BlockingService, s1: BlockingService) -> bool {
    &&& s1.website_rules == s0.website_rules
    &&& s1.application_rules == s0.application_rules
    &&& s1.hosts_backup == s0.hosts_backup
    &&& s1.is_running == s0.is_running
}

/// The reply to a website (un)block.
pub open spec fn website_reply_is(r: CommandReply, domain: Seq<char>, block: bool, success: bool) -> bool {
    &&& r.success == success
    &&& success ==> opt_views(r.response) == Some("Website "@ + domain + (if block { " blocked"@ } else { " unblocked"@ }))
        && r.error is None
    &&& !success ==> r.response is None
        && opt_views(r.error) == Some(if block { "Failed to block website"@ } else { "Failed to unblock website"@ })
}

/// The reply to an application (un)block.
pub open spec fn application_reply_is(r: CommandReply, name: Seq<char>, block: bool) -> bool {
    &&& r.success
    &&& opt_views(r.response) == Some("Application "@ + name + (if block { " blocked"@ } else { " unblocked"@ }))
    &&& r.error is None
}

/// The reply to `GET_BLOCKING_RULES`: all rules, website rules first, as a JSON array.
pub open spec fn rules_reply_is(r: CommandReply, s: BlockingService) -> bool {
    &&& r.success
    &&& r.error is None
    &&& exists|v: JsonValue| v is Array && v->Array_0@.len() == s.website_rules@.len() + s.application_rules@.len()
        && (forall|i: int| 0 <= i < v->Array_0@.len() ==> rule_json(#[trigger] v->Array_0@[i],
            (s.website_rules@ + s.application_rules@)[i]))
        && opt_views(r.response) == Some(json_print(v))
}

/// What a blocking command leaves for the caller to do outside, before it is answered.
#[derive(Debug)]
pub enum BlockingWork {
    /// Nothing.
    Nothing,
    /// Block this website: plan with `block_website`, write, then `confirm_website_block`.
    BlockSite(String),
    /// Unblock this website: plan with `unblock_website`, write, then `confirm_website_unblock`.
    UnblockSite(String),
    /// Write the hosts entries of these websites, in order, with `block_website`;
    /// their rules are in place already.
    BlockSites(Vec<String>),
}

fn copy_rules(rules: &Vec<BlockingRule>) -> (r: Vec<BlockingRule>)
    ensures
        r@ == rules@,
{
    let mut out: Vec<BlockingRule> = Vec::new();
    let mut i: usize = 0;
    while i < rules.len()
        invariant
            0 <= i <= rules@.len(),
            out@ == rules@.subrange(0, i as int),
        decreases rules.len() - i,
    {
        out.push(rules[i].copy());
        assert(out@ =~= rules@.subrange(0, i + 1));
        i = i + 1;
    }
    assert(out@ =~= rules@);
    out
}

/// The reply to a website (un)block: `Website <domain> blocked` on success, a
/// fixed failure text otherwise.
pub fn website_reply(domain: &str, block: bool, success: bool) -> (r: CommandReply)
    ensures
        website_reply_is(r, domain@, block, success),
{
    if success {
        let mut v = chars_of("Website ");
        push_str(&mut v, domain);
        if block {
            push_str(&mut v, " blocked");
        } else {
            push_str(&mut v, " unblocked");
        }
        CommandReply { success, response: Some(string_of(&v)), error: None }
    } else {
        let e = if block { chars_of("Failed to block website") } else { chars_of("Failed to unblock website") };
        CommandReply { success, response: None, error: Some(string_of(&e)) }
    }
}

/// The reply to an application (un)block, which always succeeds.
pub fn application_reply(name: &str, block: bool) -> (r: CommandReply)
    ensures
        application_reply_is(r, name@, block),
{
    let mut v = chars_of("Application ");
    push_str(&mut v, name);
    if block {
        push_str(&mut v, " blocked");
    } else {
        push_str(&mut v, " unblocked");
    }
    CommandReply { success: true, response: Some(string_of(&v)), error: None }
}

impl BlockingService {
    /// Subscribes the service, under `subscriber`, to every command.
    pub fn register_handlers(&self, socket: &mut SocketClient, subscriber: u64)
        requires
            old(socket).wf(),
        ensures
            final(socket).wf(),
            crate::client::registered_multi(*old(socket), *final(socket), crate::registry::EventKind::Command, subscriber),
    {
        socket.on_command(subscriber);
    }

    /// The reply to `GET_BLOCKING_RULES`: all rules as a JSON array.
    pub fn rules_reply(&self) -> (r: CommandReply)
        ensures
            rules_reply_is(r, *self),
    {
        let rules = self.get_rules();
        let v = rules_to_json(&rules);
        CommandReply { success: true, response: Some(print_json(&v)), error: None }
    }

    /// First half of handling a parsed command: the in-memory changes it makes,
    /// and the hosts-file work left to the caller.
    pub fn begin_command(&mut self, cmd: &BlockingCommand) -> (r: BlockingWork)
        ensures
            match *cmd {
                BlockingCommand::BlockWebsite(d) => r is BlockSite && r->BlockSite_0@ == d@
                    && unchanged(*old(self), *final(self)),
                BlockingCommand::UnblockWebsite(d) => r is UnblockSite && r->UnblockSite_0@ == d@
                    && unchanged(*old(self), *final(self)),
                BlockingCommand::BlockApplication(n) => r is Nothing && app_blocked(*old(self), *final(self), n@),
                BlockingCommand::UnblockApplication(n) => r is Nothing && app_unblocked(*old(self), *final(self), n@),
                BlockingCommand::SetRules(rs) => r is BlockSites && rules_set(*old(self), *final(self), rs@)
                    && r->BlockSites_0@.map_values(|s: String| s@) == enforced_patterns(of_type(rs@, "website"@)),
                BlockingCommand::GetRules => r is Nothing && unchanged(*old(self), *final(self)),
            },
    {
        match cmd {
            BlockingCommand::BlockWebsite(d) => BlockingWork::BlockSite(d.clone()),
            BlockingCommand::UnblockWebsite(d) => BlockingWork::UnblockSite(d.clone()),
            BlockingCommand::BlockApplication(n) => {
                self.block_application(n.as_str());
                BlockingWork::Nothing
            },
            BlockingCommand::UnblockApplication(n) => {
                self.unblock_application(n.as_str());
                BlockingWork::Nothing
            },
            BlockingCommand::SetRules(rs) => BlockingWork::BlockSites(self.set_rules(copy_rules(rs))),
            BlockingCommand::GetRules => BlockingWork::Nothing,
        }
    }

    /// Second half of handling a parsed command, once its work is done:
    /// `site_ok` is whether the website's hosts entries were written (for the
    /// website commands). Every command the service parses is answered.
    pub fn finish_command(&self, cmd: &BlockingCommand, site_ok: bool) -> (r: CommandReply)
        ensures
            match *cmd {
                BlockingCommand::BlockWebsite(d) => website_reply_is(r, d@, true, site_ok),
                BlockingCommand::UnblockWebsite(d) => website_reply_is(r, d@, false, site_ok),
                BlockingCommand::BlockApplication(n) => application_reply_is(r, n@, true),
                BlockingCommand::UnblockApplication(n) => application_reply_is(r, n@, false),
                BlockingCommand::SetRules(_) => r.success && opt_views(r.response) == Some("Blocking rules applied"@)
                    && r.error is None,
                BlockingCommand::GetRules => rules_reply_is(r, *self),
            },
    {
        match cmd {
            BlockingCommand::BlockWebsite(d) => website_reply(d.as_str(), true, site_ok),
            BlockingCommand::UnblockWebsite(d) => website_reply(d.as_str(), false, site_ok),
            BlockingCommand::BlockApplication(n) => application_reply(n.as_str(), true),
            BlockingCommand::UnblockApplication(n) => application_reply(n.as_str(), false),
            BlockingCommand::SetRules(_) => CommandReply {
                success: true,
                response: Some(string_of(&chars_of("Blocking rules applied"))),
                error: None,
            },
            BlockingCommand::GetRules => self.rules_reply(),
        }
    }
}

} // verus!
