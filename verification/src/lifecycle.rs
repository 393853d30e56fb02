//! The life cycle of creeps: retiring old ones, spawning workers and naming
//! them, and forgetting the memory of the dead.
use vstd::hash_set::StringHashSet;
use vstd::prelude::*;

verus! {

/// Creep body parts.
#[derive(Clone, Copy, Debug, PartialEq, Eq, Structural)]
pub enum BodyPart {
    Move,
    Work,
    Carry,
    Attack,
    RangedAttack,
    Tough,
    Heal,
    Claim,
}

/// The energy cost of a body part (the game's `BODYPART_COST`).
pub open spec fn spec_part_cost(p: BodyPart) -> nat {
    match p {
        BodyPart::Move => 50,
        BodyPart::Work => 100,
        BodyPart::Carry => 50,
        BodyPart::Attack => 80,
        BodyPart::RangedAttack => 150,
        BodyPart::Tough => 10,
        BodyPart::Heal => 250,
        BodyPart::Claim => 600,
    }
}

/// `screeps::Part::cost` on the part of the same name. Claimed: the crate's
/// table, which is `spec_part_cost`.
#[verifier::external_body]
pub fn part_cost(p: BodyPart) -> (r: u32)
    ensures
        r == spec_part_cost(p),
{
    let part = match p {
        BodyPart::Move => screeps::Part::Move,
        BodyPart::Work => screeps::Part::Work,
        BodyPart::Carry => screeps::Part::Carry,
        BodyPart::Attack => screeps::Part::Attack,
        BodyPart::RangedAttack => screeps::Part::RangedAttack,
        BodyPart::Tough => screeps::Part::Tough,
        BodyPart::Heal => screeps::Part::Heal,
        BodyPart::Claim => screeps::Part::Claim,
    };
    part.cost()
}

/// The energy cost of a body: the sum of its parts' costs.
pub open spec fn body_cost_of(body: Seq<BodyPart>) -> nat
    decreases body.len(),
{
    if body.len() == 0 {
        0
    } else {
        body_cost_of(body.drop_last()) + spec_part_cost(body.last())
    }
}

/// The energy cost of a body.
pub fn body_cost(body: &Vec<BodyPart>) -> (r: u32)
    requires
        body_cost_of(body@) <= u32::MAX,
    ensures
        r == body_cost_of(body@),
{
    let mut total: u32 = 0;
    let mut i: usize = 0;
    while i < body.len()
        invariant
            i <= body.len(),
            body_cost_of(body@) <= u32::MAX,
            total == body_cost_of(body@.take(i as int)),
        decreases body.len() - i,
    {
        assert(body@.take(i as int + 1).drop_last() =~= body@.take(i as int));
        proof {
            lemma_body_cost_prefix(body@, i as int + 1);
        }
        total = total + part_cost(body[i]);
        i = i + 1;
    }
    assert(body@.take(body.len() as int) =~= body@);
    total
}

/// A prefix of a body costs no more than the body.
pub proof fn lemma_body_cost_prefix(body: Seq<BodyPart>, n: int)
    requires
        0 <= n <= body.len(),
    ensures
        body_cost_of(body.take(n)) <= body_cost_of(body),
    decreases body.len(),
{
    if n < body.len() {
        assert(body.drop_last().take(n) =~= body.take(n));
        lemma_body_cost_prefix(body.drop_last(), n);
    } else {
        assert(body.take(n) =~= body);
    }
}

/// The body of a worker: two moves, a carry and a work part.
pub open spec fn worker() -> Seq<BodyPart> {
    seq![BodyPart::Move, BodyPart::Move, BodyPart::Carry, BodyPart::Work]
}

/// The body every spawned worker gets.
pub fn worker_body() -> (r: Vec<BodyPart>)
    ensures
        r@ == worker(),
{
    let mut v: Vec<BodyPart> = Vec::new();
    v.push(BodyPart::Move);
    v.push(BodyPart::Move);
    v.push(BodyPart::Carry);
    v.push(BodyPart::Work);
    assert(v@ =~= worker());
    v
}

/// A worker costs 250 energy.
pub proof fn lemma_worker_cost()
    ensures
        body_cost_of(worker()) == 250,
{
    let w = worker();
    assert(w.drop_last() =~= seq![BodyPart::Move, BodyPart::Move, BodyPart::Carry]);
    assert(w.drop_last().drop_last() =~= seq![BodyPart::Move, BodyPart::Move]);
    assert(w.drop_last().drop_last().drop_last() =~= seq![BodyPart::Move]);
    assert(w.drop_last().drop_last().drop_last().drop_last() =~= Seq::<BodyPart>::empty());
    reveal_with_fuel(body_cost_of, 5);
}

/// A creep with fewer than 25 ticks to live (or an unknown number) retires.
pub open spec fn retiring(ticks_to_live: Option<u32>) -> bool {
    match ticks_to_live {
        Some(t) => t < 25,
        None => true,
    }
}

/// For each creep, given its remaining ticks to live, whether it retires now.
pub fn purge(ticks_to_live: &Vec<Option<u32>>) -> (r: Vec<bool>)
    ensures
        r@.len() == ticks_to_live@.len(),
        forall|i: int| 0 <= i < r@.len() ==> r@[i] == retiring(#[trigger] ticks_to_live@[i]),
{
    let mut r: Vec<bool> = Vec::new();
    let mut i: usize = 0;
    while i < ticks_to_live.len()
        invariant
            i <= ticks_to_live.len(),
            r@.len() == i,
            forall|j: int| 0 <= j < i ==> r@[j] == retiring(#[trigger] ticks_to_live@[j]),
        decreases ticks_to_live.len() - i,
    {
        let ttl = match ticks_to_live[i] {
            Some(t) => t,
            None => 0,
        };
        r.push(ttl < 25);
        i = i + 1;
    }
    r
}

/// The decimal digit character for `d < 10`.
pub open spec fn digit_char(d: nat) -> char {
    if d == 0 {
        '0'
    } else if d == 1 {
        '1'
    } else if d == 2 {
        '2'
    } else if d == 3 {
        '3'
    } else if d == 4 {
        '4'
    } else if d == 5 {
        '5'
    } else if d == 6 {
        '6'
    } else if d == 7 {
        '7'
    } else if d == 8 {
        '8'
    } else {
        '9'
    }
}

/// The decimal representation of `n`, without leading zeros.
pub open spec fn decimal(n: nat) -> Seq<char>
    decreases n,
{
    if n < 10 {
        seq![digit_char(n)]
    } else {
        decimal(n / 10).push(digit_char(n % 10))
    }
}

/// The name given to the `additional`-th creep spawned at game tick `time`:
/// the tick, a dash, and the counter, both in decimal.
pub open spec fn spawn_name(time: u32, additional: u32) -> Seq<char> {
    decimal(time as nat) + seq!['-'] + decimal(additional as nat)
}

fn digit_str(d: u32) -> (r: &'static str)
    requires
        d < 10,
    ensures
        r@ == seq![digit_char(d as nat)],
{
    proof {
        reveal_strlit("0");
        reveal_strlit("1");
        reveal_strlit("2");
        reveal_strlit("3");
        reveal_strlit("4");
        reveal_strlit("5");
        reveal_strlit("6");
        reveal_strlit("7");
        reveal_strlit("8");
        reveal_strlit("9");
    }
    if d == 0 {
        "0"
    } else if d == 1 {
        "1"
    } else if d == 2 {
        "2"
    } else if d == 3 {
        "3"
    } else if d == 4 {
        "4"
    } else if d == 5 {
        "5"
    } else if d == 6 {
        "6"
    } else if d == 7 {
        "7"
    } else if d == 8 {
        "8"
    } else {
        "9"
    }
}

fn push_decimal(s: &mut String, n: u32)
    ensures
        final(s)@ == old(s)@ + decimal(n as nat),
    decreases n,
{
    if n >= 10 {
        push_decimal(s, n / 10);
    }
    s.append(digit_str(n % 10));
    proof {
        if n >= 10 {
            assert(decimal(n as nat) == decimal((n / 10) as nat).push(digit_char((n % 10) as nat)));
        }
    }
    assert(s@ =~= old(s)@ + decimal(n as nat)) by {
        if n < 10 {
            assert(decimal(n as nat) == seq![digit_char(n as nat)]);
        }
    }
}

/// The name of the `additional`-th creep spawned at game tick `time`.
pub fn creep_name(time: u32, additional: u32) -> (r: String)
    ensures
        r@ == spawn_name(time, additional),
{
    let mut s = String::new();
    push_decimal(&mut s, time);
    proof {
        reveal_strlit("-");
    }
    s.append("-");
    push_decimal(&mut s, additional);
    assert(s@ =~= spawn_name(time, additional));
    s
}

/// Creeps are spawned while the colony has fewer than this many.
pub const MAX_CREEPS: usize = 8;

/// A spawn order: the body and the name of the new creep.
pub struct SpawnRequest {
    pub body: Vec<BodyPart>,
    pub name: String,
}

/// Spawning over the spawns of one tick: the tick, how many creeps lived when
/// the tick began, and how many creeps were spawned so far this tick.
pub struct SpawnPlanner {
    pub time: u32,
    pub total_creeps: usize,
    pub additional: u32,
}

impl SpawnPlanner {
    /// Nothing spawned yet at tick `time`, with `total_creeps` creeps alive.
    pub fn new(time: u32, total_creeps: usize) -> (r: Self)
        ensures
            r.time == time,
            r.total_creeps == total_creeps,
            r.additional == 0,
    {
        SpawnPlanner { time, total_creeps, additional: 0 }
    }

    /// What a spawn whose room holds `energy_available` energy spawns: a
    /// worker, when the colony has fewer than `MAX_CREEPS` creeps and the room
    /// can pay for it, named after the tick and the count spawned so far.
    pub fn request(&self, energy_available: u32) -> (r: Option<SpawnRequest>)
        ensures
            r is Some <==> self.total_creeps < MAX_CREEPS && energy_available >= body_cost_of(worker()),
            r matches Some(q) ==> q.body@ == worker() && q.name@ == spawn_name(self.time, self.additional),
    {
        let body = worker_body();
        proof {
            lemma_worker_cost();
        }
        if self.total_creeps < MAX_CREEPS && energy_available >= body_cost(&body) {
            Some(SpawnRequest { body, name: creep_name(self.time, self.additional) })
        } else {
            None
        }
    }

    /// Records whether the last request was spawned: a spawned creep moves the
    /// counter on, so that the next name differs.
    pub fn record(&mut self, spawned: bool)
        requires
            old(self).additional < i32::MAX,
        ensures
            final(self).time == old(self).time,
            final(self).total_creeps == old(self).total_creeps,
            final(self).additional == if spawned { old(self).additional + 1 } else { old(self).additional as int },
    {
        if spawned {
            self.additional = self.additional + 1;
        }
    }
}

/// Memory is swept of dead creeps every thousand ticks.
pub fn memory_cleanup_due(time: u32) -> (r: bool)
    ensures
        r == (time % 1000 == 0),
{
    time % 1000 == 0
}

/// The names kept in memory that belong to no living creep, in memory order.
pub fn stale_memory_names(alive: Vec<String>, remembered: &Vec<String>) -> (r: Vec<String>)
    ensures
        r.deep_view() == remembered.deep_view().filter(|n: Seq<char>| !alive.deep_view().contains(n)),
{
    let ghost alive_names = alive.deep_view();
    let mut alive_set = StringHashSet::new();
    let mut k: usize = 0;
    while k < alive.len()
        invariant
            k <= alive.len(),
            alive_names == alive.deep_view(),
            alive_set@ == alive_names.take(k as int).to_set(),
        decreases alive.len() - k,
    {
        proof {
            assert(alive_names.take(k as int + 1) =~= alive_names.take(k as int).push(alive_names[k as int]));
            alive_names.take(k as int).lemma_push_to_set_commute(alive_names[k as int]);
        }
        alive_set.insert(alive[k].clone());
        k = k + 1;
    }
    assert(alive_names.take(alive.len() as int) =~= alive_names);
    let ghost pred = |n: Seq<char>| !alive_names.contains(n);
    let ghost names = remembered.deep_view();
    let mut r: Vec<String> = Vec::new();
    let mut i: usize = 0;
    while i < remembered.len()
        invariant
            i <= remembered.len(),
            names == remembered.deep_view(),
            alive_set@ == alive_names.to_set(),
            pred == (|n: Seq<char>| !alive_names.contains(n)),
            r.deep_view() == names.take(i as int).filter(pred),
        decreases remembered.len() - i,
    {
        proof {
            crate::management::structures::lemma_filter_step(names, i as int, pred);
        }
        let name = &remembered[i];
        if !alive_set.contains(name.as_str()) {
            let ghost before = r.deep_view();
            r.push(name.clone());
            assert(r.deep_view() =~= before.push(names[i as int]));
        }
        i = i + 1;
    }
    assert(names.take(remembered.len() as int) =~= names);
    r
}

proof fn lemma_decimal_shape(n: nat)
    ensures
        decimal(n).len() >= 1,
        n >= 10 ==> decimal(n).len() >= 2,
        forall|i: int| 0 <= i < decimal(n).len() ==> #[trigger] decimal(n)[i] != '-',
    decreases n,
{
    if n >= 10 {
        lemma_decimal_shape(n / 10);
        let d = decimal(n / 10);
        assert(decimal(n) == d.push(digit_char(n % 10)));
        assert forall|i: int| 0 <= i < decimal(n).len() implies #[trigger] decimal(n)[i] != '-' by {
            if i < d.len() {
                assert(decimal(n)[i] == d[i]);
            }
        }
    }
}

proof fn lemma_digit_char_injective(a: nat, b: nat)
    requires
        a < 10,
        b < 10,
        digit_char(a) == digit_char(b),
    ensures
        a == b,
{
}

proof fn lemma_decimal_injective(n: nat, m: nat)
    requires
        decimal(n) == decimal(m),
    ensures
        n == m,
    decreases n,
{
    lemma_decimal_shape(n);
    lemma_decimal_shape(m);
    if n < 10 && m < 10 {
        assert(decimal(n)[0] == digit_char(n));
        assert(decimal(m)[0] == digit_char(m));
        lemma_digit_char_injective(n, m);
    } else if n >= 10 && m >= 10 {
        let dn = decimal(n);
        let dm = decimal(m);
        assert(dn.last() == digit_char(n % 10));
        assert(dm.last() == digit_char(m % 10));
        lemma_digit_char_injective(n % 10, m % 10);
        assert(dn.drop_last() =~= decimal(n / 10));
        assert(dm.drop_last() =~= decimal(m / 10));
        lemma_decimal_injective(n / 10, m / 10);
    }
}

/// Creep names are unique: distinct (tick, counter) pairs give distinct
/// names, so every creep spawned gets a name no other creep spawned by the
/// colony gets.
pub proof fn lemma_spawn_names_distinct(t1: u32, a1: u32, t2: u32, a2: u32)
    requires
        t1 != t2 || a1 != a2,
    ensures
        spawn_name(t1, a1) != spawn_name(t2, a2),
{
    let p1 = decimal(t1 as nat);
    let p2 = decimal(t2 as nat);
    let s1 = spawn_name(t1, a1);
    let s2 = spawn_name(t2, a2);
    lemma_decimal_shape(t1 as nat);
    lemma_decimal_shape(t2 as nat);
    if s1 == s2 {
        if p1.len() < p2.len() {
            assert(s1[p1.len() as int] == '-');
            assert(s2[p1.len() as int] == p2[p1.len() as int]);
            assert(false);
        } else if p2.len() < p1.len() {
            assert(s2[p2.len() as int] == '-');
            assert(s1[p2.len() as int] == p1[p2.len() as int]);
            assert(false);
        } else {
            assert(s1.take(p1.len() as int) =~= p1);
            assert(s2.take(p2.len() as int) =~= p2);
            lemma_decimal_injective(t1 as nat, t2 as nat);
            assert(s1.skip(p1.len() as int + 1) =~= decimal(a1 as nat));
            assert(s2.skip(p2.len() as int + 1) =~= decimal(a2 as nat));
            lemma_decimal_injective(a1 as nat, a2 as nat);
        }
    }
}


/// The number a string of decimal digits denotes, reading the character code
/// minus that of '0' as each digit's value.
pub open spec fn numeral_value(s: Seq<char>) -> int
    decreases s.len(),
{
    if s.len() == 0 {
        0
    } else {
        numeral_value(s.drop_last()) * 10 + ((s.last() as int) - 48)
    }
}

/// Decimal digits are the ASCII characters '0' to '9': digit `d` has code
/// `48 + d`.
pub proof fn lemma_digit_codes(d: nat)
    requires
        d < 10,
    ensures
        digit_char(d) as int == 48 + d,
{
}

/// The decimal rendering is made of ASCII digits and reads back as the number
/// it renders.
pub proof fn lemma_decimal_reads_back(n: nat)
    ensures
        numeral_value(decimal(n)) == n,
        forall|i: int| 0 <= i < decimal(n).len() ==> 48 <= #[trigger] (decimal(n)[i] as int) <= 57,
    decreases n,
{
    lemma_digit_codes(n % 10);
    if n >= 10 {
        lemma_decimal_reads_back(n / 10);
        let d = decimal(n / 10);
        assert(decimal(n) == d.push(digit_char(n % 10)));
        assert(decimal(n).drop_last() =~= d);
        assert(decimal(n).last() == digit_char(n % 10));
        assert(numeral_value(decimal(n)) == numeral_value(d) * 10 + ((digit_char(n % 10) as int) - 48));
        assert(numeral_value(decimal(n)) == n);
        assert forall|i: int| 0 <= i < decimal(n).len() implies 48 <= #[trigger] (decimal(n)[i] as int) <= 57 by {
            if i < d.len() {
                assert(decimal(n)[i] == d[i]);
            }
        }
    } else {
        assert(decimal(n).drop_last() =~= Seq::<char>::empty());
        assert(decimal(n).last() == digit_char(n));
        assert(numeral_value(decimal(n)) == numeral_value(Seq::<char>::empty()) * 10 + ((digit_char(n) as int) - 48));
    }
}

/// A creep name is the tick and the counter in base ten, split by a dash.
pub proof fn lemma_spawn_name_reads_back(time: u32, additional: u32)
    ensures
        ({
            let name = spawn_name(time, additional);
            let t = decimal(time as nat).len();
            &&& name[t as int] == '-'
            &&& numeral_value(name.take(t as int)) == time
            &&& numeral_value(name.skip(t as int + 1)) == additional
        }),
{
    lemma_decimal_reads_back(time as nat);
    lemma_decimal_reads_back(additional as nat);
    let name = spawn_name(time, additional);
    let t = decimal(time as nat).len();
    assert(name.take(t as int) =~= decimal(time as nat));
    assert(name.skip(t as int + 1) =~= decimal(additional as nat));
}

} // verus!
