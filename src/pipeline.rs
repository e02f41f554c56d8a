use vstd::prelude::*;
use vstd::string::*;
use crate::text::{eq_str, trim, trimmed};

verus! {

/// Index of the first `c` in `s`, or the length of `s` where there is none.
pub open spec fn index_of(s: Seq<char>, c: char) -> nat
    decreases s.len(),
{
    if s.len() == 0 || s[0] == c {
        0
    } else {
        1 + index_of(s.drop_first(), c)
    }
}

pub open spec fn strip_start(s: Seq<char>, c: char) -> Seq<char>
    decreases s.len(),
{
    if s.len() > 0 && s[0] == c {
        strip_start(s.drop_first(), c)
    } else {
        s
    }
}

pub open spec fn strip_end(s: Seq<char>, c: char) -> Seq<char>
    decreases s.len(),
{
    if s.len() > 0 && s.last() == c {
        strip_end(s.drop_last(), c)
    } else {
        s
    }
}

/// The cookie names under which the session token may stand.
pub open spec fn is_token_name(n: Seq<char>) -> bool {
    n == "auth"@ || n == "authToken"@ || n == "auth_token"@
}

/// The token that one cookie pair `name=value` holds: the trimmed value without its
/// surrounding quotes, where the trimmed name is a token name.
pub open spec fn entry_token(e: Seq<char>) -> Option<Seq<char>> {
    let t = trimmed(e);
    let k = index_of(t, '=');
    if k < t.len() && is_token_name(trimmed(t.subrange(0, k as int))) {
        Some(strip_end(strip_start(trimmed(t.subrange(k as int + 1, t.len() as int)), '"'), '"'))
    } else {
        None
    }
}

/// The token of the first pair that holds one, among the pairs of a cookie header
/// separated by `;`.
pub open spec fn cookie_token(s: Seq<char>) -> Option<Seq<char>>
    decreases s.len(),
{
    let k = index_of(s, ';');
    match entry_token(s.subrange(0, k as int)) {
        Some(v) => Some(v),
        None => if k < s.len() {
            cookie_token(s.subrange(k as int + 1, s.len() as int))
        } else {
            None
        },
    }
}

proof fn index_of_bound(s: Seq<char>, c: char)
    ensures
        index_of(s, c) <= s.len(),
        index_of(s, c) < s.len() ==> s[index_of(s, c) as int] == c,
    decreases s.len(),
{
    if s.len() > 0 && s[0] != c {
        index_of_bound(s.drop_first(), c);
    }
}

/// Index of the first `c` in `s` at or after `from`, or `n`, the length of `s`.
fn find_char(s: &str, c: char, from: usize, n: usize) -> (k: usize)
    requires
        n == s@.len(),
        from <= n,
    ensures
        k == from + index_of(s@.subrange(from as int, n as int), c),
        k <= n,
{
    let mut i = from;
    assert(s@.subrange(from as int, n as int) == s@.subrange(from as int, n as int));
    while i < n && s.get_char(i) != c
        invariant
            from <= i <= n,
            n == s@.len(),
            index_of(s@.subrange(from as int, n as int), c) == (i - from) + index_of(
                s@.subrange(i as int, n as int),
                c,
            ),
        decreases n - i,
    {
        assert(s@.subrange(i as int, n as int).drop_first() == s@.subrange(i + 1, n as int));
        i = i + 1;
    }
    proof {
        if i < n {
            assert(s@.subrange(i as int, n as int)[0] == c);
        }
    }
    i
}

fn strip_quotes(s: &str) -> (r: &str)
    ensures
        r@ == strip_end(strip_start(s@, '"'), '"'),
{
    let n = s.unicode_len();
    let mut i: usize = 0;
    assert(s@.subrange(0, n as int) == s@);
    while i < n && s.get_char(i) == '"'
        invariant
            i <= n,
            n == s@.len(),
            strip_start(s@, '"') == strip_start(s@.subrange(i as int, n as int), '"'),
        decreases n - i,
    {
        assert(s@.subrange(i as int + 1, n as int) == s@.subrange(i as int, n as int).drop_first());
        i = i + 1;
    }
    let mut j: usize = n;
    while j > i && s.get_char(j - 1) == '"'
        invariant
            i <= j <= n,
            n == s@.len(),
            strip_start(s@, '"') == s@.subrange(i as int, n as int),
            strip_end(s@.subrange(i as int, n as int), '"') == strip_end(
                s@.subrange(i as int, j as int),
                '"',
            ),
        decreases j,
    {
        assert(s@.subrange(i as int, j - 1) == s@.subrange(i as int, j as int).drop_last());
        j = j - 1;
    }
    s.substring_char(i, j)
}

fn is_token_name_str(n: &str) -> (r: bool)
    ensures
        r == is_token_name(n@),
{
    eq_str(n, "auth") || eq_str(n, "authToken") || eq_str(n, "auth_token")
}

fn entry_token_of(e: &str) -> (r: Option<String>)
    ensures
        match r {
            Some(v) => entry_token(e@) == Some(v@),
            None => entry_token(e@) is None,
        },
{
    let t = trim(e);
    let tl = t.unicode_len();
    let k = find_char(t, '=', 0, tl);
    assert(t@.subrange(0, tl as int) == t@);
    if k < tl {
        let name = trim(t.substring_char(0, k));
        if is_token_name_str(name) {
            let value = trim(t.substring_char(k + 1, tl));
            return Some(String::from_str(strip_quotes(value)));
        }
    }
    None
}

/// The session token in a cookie header, as `cookie_token` describes it.
pub fn auth_token_from_cookie_header(cookie_header: &str) -> (r: Option<String>)
    ensures
        match r {
            Some(v) => cookie_token(cookie_header@) == Some(v@),
            None => cookie_token(cookie_header@) is None,
        },
{
    let n = cookie_header.unicode_len();
    let mut start: usize = 0;
    assert(cookie_header@.subrange(0, n as int) == cookie_header@);
    loop
        invariant
            start <= n,
            n == cookie_header@.len(),
            cookie_token(cookie_header@) == cookie_token(
                cookie_header@.subrange(start as int, n as int),
            ),
        decreases n - start,
    {
        let ghost rest = cookie_header@.subrange(start as int, n as int);
        let k = find_char(cookie_header, ';', start, n);
        proof {
            index_of_bound(rest, ';');
            assert(rest.subrange(0, k - start) == cookie_header@.subrange(start as int, k as int));
        }
        let entry = cookie_header.substring_char(start, k);
        match entry_token_of(entry) {
            Some(v) => {
                return Some(v);
            },
            None => {
                if k == n {
                    return None;
                }
                assert(rest.subrange(k - start + 1, rest.len() as int)
                    == cookie_header@.subrange(k + 1, n as int));
                start = k + 1;
            },
        }
    }
}

pub const BASE_DELAY_SECS: u64 = 5;

pub const MAX_DELAY_SECS: u64 = 60;

/// The delay after one more failure: doubled, capped at the maximum.
pub open spec fn next_delay(d: int) -> int {
    if 2 * d < MAX_DELAY_SECS {
        2 * d
    } else {
        MAX_DELAY_SECS as int
    }
}

/// The delay in force after `n` failures in a row from the base delay.
pub open spec fn delay_after(n: nat) -> int
    decreases n,
{
    if n == 0 {
        BASE_DELAY_SECS as int
    } else {
        next_delay(delay_after((n - 1) as nat))
    }
}

/// What the supervisor does once a connection has ended.
#[derive(Clone, Copy, Debug, PartialEq, Eq)]
pub enum Supervise {
    Reconnect,
    SleepThenReconnect(u64),
    Stop,
}

/// The reconnect supervisor's state: the current backoff delay and whether it was cancelled.
#[derive(Clone, Copy, Debug)]
pub struct ReconnectState {
    pub delay_secs: u64,
    pub cancelled: bool,
}

impl ReconnectState {
    pub open spec fn wf(&self) -> bool {
        BASE_DELAY_SECS <= self.delay_secs <= MAX_DELAY_SECS
    }

    pub fn new() -> (r: ReconnectState)
        ensures
            r.wf(),
            r.delay_secs == BASE_DELAY_SECS,
            !r.cancelled,
    {
        ReconnectState { delay_secs: BASE_DELAY_SECS, cancelled: false }
    }

    /// Decides what follows a connection's end: `clean` where the stream closed without error.
    /// A clean end reconnects at once and resets the delay; an error sleeps the current delay
    /// and doubles it up to the cap; a cancelled supervisor stops.
    pub fn on_listen_end(&mut self, clean: bool) -> (r: Supervise)
        requires
            old(self).wf(),
        ensures
            final(self).wf(),
            final(self).cancelled == old(self).cancelled,
            old(self).cancelled ==> r == Supervise::Stop && *final(self) == *old(self),
            !old(self).cancelled && clean ==> r == Supervise::Reconnect && final(self).delay_secs
                == BASE_DELAY_SECS,
            !old(self).cancelled && !clean ==> r == Supervise::SleepThenReconnect(
                old(self).delay_secs,
            ) && final(self).delay_secs == next_delay(old(self).delay_secs as int),
    {
        if self.cancelled {
            return Supervise::Stop;
        }
        if clean {
            self.delay_secs = BASE_DELAY_SECS;
            Supervise::Reconnect
        } else {
            let d = self.delay_secs;
            self.delay_secs = if 2 * d < MAX_DELAY_SECS {
                2 * d
            } else {
                MAX_DELAY_SECS
            };
            Supervise::SleepThenReconnect(d)
        }
    }

    pub fn cancel(&mut self)
        ensures
            final(self).cancelled,
            final(self).delay_secs == old(self).delay_secs,
    {
        self.cancelled = true;
    }
}

proof fn delay_after_bounds(n: nat)
    ensures
        BASE_DELAY_SECS <= delay_after(n) <= MAX_DELAY_SECS,
        n >= 4 ==> delay_after(n) == MAX_DELAY_SECS,
    decreases n,
{
    reveal_with_fuel(delay_after, 5);
    if n > 0 {
        delay_after_bounds((n - 1) as nat);
    }
}

/// The backoff schedule: failures in a row from the base delay wait 5, 10, 20 and 40
/// seconds, then 60 seconds each; the delay never leaves that range.
pub proof fn backoff_schedule()
    ensures
        delay_after(0) == 5,
        delay_after(1) == 10,
        delay_after(2) == 20,
        delay_after(3) == 40,
        forall|n: nat| #[trigger] delay_after(n) <= 60,
        forall|n: nat| n >= 4 ==> #[trigger] delay_after(n) == 60,
{
    reveal_with_fuel(delay_after, 5);
    assert forall|n: nat| #[trigger] delay_after(n) <= 60 by {
        delay_after_bounds(n);
    }
    assert forall|n: nat| n >= 4 implies #[trigger] delay_after(n) == 60 by {
        delay_after_bounds(n);
    }
}

/// One more failure moves the delay one step along the schedule: the delay after `n`
/// failures, doubled and capped, is the delay after `n + 1`.
pub proof fn failures_follow_schedule(n: nat)
    ensures
        next_delay(delay_after(n)) == delay_after(n + 1),
{
}

/// The one streaming task that may run: its id, where one runs.
#[derive(Clone, Copy, Debug)]
pub struct PipelineState {
    pub active: Option<u64>,
}

/// What a start asks of the caller: abort the task `abort`, if any, before spawning the task
/// with id `spawn`.
#[derive(Clone, Copy, Debug, PartialEq, Eq)]
pub struct StartPlan {
    pub abort: Option<u64>,
    pub spawn: u64,
}

/// An id different from the running task's.
pub open spec fn fresh_id(active: Option<u64>) -> u64 {
    match active {
        Some(x) => if x == u64::MAX {
            0
        } else {
            (x + 1) as u64
        },
        None => 0,
    }
}

pub open spec fn start_spec(active: Option<u64>) -> (Option<u64>, StartPlan) {
    (Some(fresh_id(active)), StartPlan { abort: active, spawn: fresh_id(active) })
}

impl PipelineState {
    pub fn new() -> (r: PipelineState)
        ensures
            r.active is None,
    {
        PipelineState { active: None }
    }

    /// Replaces the running task, if any, by a new one.
    pub fn start(&mut self) -> (r: StartPlan)
        ensures
            (final(self).active, r) == start_spec(old(self).active),
    {
        let id = match self.active {
            Some(x) => if x == u64::MAX {
                0
            } else {
                x + 1
            },
            None => 0,
        };
        let plan = StartPlan { abort: self.active, spawn: id };
        self.active = Some(id);
        plan
    }

    /// Starts with the token of a cookie header; where the header holds none, nothing starts.
    pub fn start_with_cookie_header(&mut self, cookie_header: Option<&str>) -> (r: Option<
        (String, StartPlan),
    >)
        ensures
            match cookie_header {
                Some(h) => match cookie_token(h@) {
                    Some(t) => r matches Some(v) && v.0@ == t && (final(self).active, v.1)
                        == start_spec(old(self).active),
                    None => r is None && *final(self) == *old(self),
                },
                None => r is None && *final(self) == *old(self),
            },
    {
        match cookie_header {
            Some(h) => match auth_token_from_cookie_header(h) {
                Some(token) => {
                    let plan = self.start();
                    Some((token, plan))
                },
                None => None,
            },
            None => None,
        }
    }

    /// Ends the running task, if any; the id to abort is returned. Calling it again does nothing.
    pub fn stop(&mut self) -> (r: Option<u64>)
        ensures
            r == old(self).active,
            final(self).active is None,
    {
        let r = self.active;
        self.active = None;
        r
    }
}

/// Two starts in a row leave exactly one task: the second start aborts the first task
/// before it spawns its own, which has another id.
pub proof fn restart_leaves_one_task(active: Option<u64>)
    ensures
        ({
            let (a1, p1) = start_spec(active);
            let (a2, p2) = start_spec(a1);
            &&& p2.abort == Some(p1.spawn)
            &&& a2 == Some(p2.spawn)
            &&& p2.spawn != p1.spawn
        }),
{
}

} // verus!
