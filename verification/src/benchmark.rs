use vstd::prelude::*;
use crate::text::{decimal, decimal_text, same_text};
use crate::clock::{duration_since_epoch, now, whole_secs};

verus! {

/// The machine a benchmark ran on.
#[derive(Debug)]
pub struct HardwareInfo {
    pub os: String,
    pub cpu_cores: usize,
    pub gpu_name: String,
    pub gpu_backend: String,
    pub gpu_driver: String,
}

/// Rank of the grade a score earns: 0 for D up to 5 for S+.
pub open spec fn grade_rank(score: int) -> int {
    if score >= 100_000 {
        5
    } else if score >= 60_000 {
        4
    } else if score >= 35_000 {
        3
    } else if score >= 18_000 {
        2
    } else if score >= 8_000 {
        1
    } else {
        0
    }
}

/// Letter of each grade rank.
pub open spec fn rank_letter(rank: int) -> Seq<char> {
    if rank == 5 {
        "S+"@
    } else if rank == 4 {
        "S"@
    } else if rank == 3 {
        "A"@
    } else if rank == 2 {
        "B"@
    } else if rank == 1 {
        "C"@
    } else {
        "D"@
    }
}

/// The grade a benchmark score earns.
pub open spec fn grade_of(score: int) -> Seq<char> {
    rank_letter(grade_rank(score))
}

pub fn calculate_grade(score: u64) -> (r: String)
    ensures
        r@ == grade_of(score as int),
{
    if score >= 100_000 {
        String::from_str("S+")
    } else if score >= 60_000 {
        String::from_str("S")
    } else if score >= 35_000 {
        String::from_str("A")
    } else if score >= 18_000 {
        String::from_str("B")
    } else if score >= 8_000 {
        String::from_str("C")
    } else {
        String::from_str("D")
    }
}

/// A tier's score: its raw throughput score, but at least 1.
pub fn tier_score(raw_score: u64) -> (r: u64)
    ensures
        r == (if raw_score >= 1 { raw_score } else { 1 }),
{
    if raw_score >= 1 {
        raw_score
    } else {
        1
    }
}

/// Particle counts of the GPU tiers when none is chosen.
pub open spec fn default_gpu_tiers() -> Seq<usize> {
    seq![10_000usize, 25_000usize, 50_000usize, 100_000usize]
}

/// Particle counts of the CPU tiers when none is chosen.
pub open spec fn default_cpu_tiers() -> Seq<usize> {
    seq![5_000usize, 10_000usize, 20_000usize]
}

/// The tiers a benchmark runs.
pub struct BenchmarkPlan {
    pub gpu_tiers: Vec<usize>,
    pub cpu_tiers: Vec<usize>,
}

/// Whether an engine choice asks for the engine named `name`: no choice
/// runs both engines.
pub open spec fn engine_selected(choice: Option<Seq<char>>, name: Seq<char>) -> bool {
    match choice {
        None => true,
        Some(c) => c == name,
    }
}

/// The tiers of one engine: the chosen particle count alone, or the
/// default tiers.
pub open spec fn tiers_for(custom: Option<usize>, defaults: Seq<usize>) -> Seq<usize> {
    match custom {
        Some(p) => seq![p],
        None => defaults,
    }
}

pub open spec fn opt_text(o: Option<&str>) -> Option<Seq<char>> {
    match o {
        Some(t) => Some(t@),
        None => None,
    }
}

fn tier_list(custom: Option<usize>, gpu: bool) -> (r: Vec<usize>)
    ensures
        r@ == tiers_for(custom, if gpu { default_gpu_tiers() } else { default_cpu_tiers() }),
{
    match custom {
        Some(p) => {
            let r = vec![p];
            assert(r@ =~= seq![p]);
            r
        },
        None => {
            if gpu {
                let r = vec![10_000usize, 25_000, 50_000, 100_000];
                assert(r@ =~= default_gpu_tiers());
                r
            } else {
                let r = vec![5_000usize, 10_000, 20_000];
                assert(r@ =~= default_cpu_tiers());
                r
            }
        },
    }
}

/// The tiers to run for an optional particle count and engine choice
/// (`"gpu"` or `"cpu"`; any other choice runs neither engine).
pub fn plan_benchmark(custom_particles: Option<usize>, engine_choice: Option<&str>) -> (r: BenchmarkPlan)
    ensures
        r.gpu_tiers@ == (if engine_selected(opt_text(engine_choice), "gpu"@) {
            tiers_for(custom_particles, default_gpu_tiers())
        } else {
            Seq::<usize>::empty()
        }),
        r.cpu_tiers@ == (if engine_selected(opt_text(engine_choice), "cpu"@) {
            tiers_for(custom_particles, default_cpu_tiers())
        } else {
            Seq::<usize>::empty()
        }),
{
    let test_gpu = match engine_choice {
        None => true,
        Some(c) => same_text(c, "gpu"),
    };
    let test_cpu = match engine_choice {
        None => true,
        Some(c) => same_text(c, "cpu"),
    };
    let gpu_tiers = if test_gpu { tier_list(custom_particles, true) } else { Vec::new() };
    let cpu_tiers = if test_cpu { tier_list(custom_particles, false) } else { Vec::new() };
    BenchmarkPlan { gpu_tiers, cpu_tiers }
}

/// Sum of scores.
pub open spec fn score_sum(s: Seq<u64>) -> int
    decreases s.len(),
{
    if s.len() == 0 {
        0
    } else {
        score_sum(s.drop_last()) + s.last()
    }
}

/// The overall score of a benchmark: the integer mean of its tier scores,
/// 0 when no tier ran.
pub open spec fn mean_score(s: Seq<u64>) -> int {
    if s.len() == 0 {
        0
    } else {
        score_sum(s) / (s.len() as int)
    }
}

proof fn lemma_score_sum_bounds(s: Seq<u64>, i: int)
    requires
        0 <= i <= s.len(),
    ensures
        0 <= score_sum(s.take(i)),
        score_sum(s.take(i)) <= score_sum(s),
    decreases s.len() - i,
{
    if i < s.len() {
        lemma_score_sum_bounds(s, i + 1);
        assert(s.take(i + 1).drop_last() =~= s.take(i));
    } else {
        assert(s.take(i) =~= s);
    }
    lemma_score_sum_nonneg(s.take(i));
}

proof fn lemma_score_sum_nonneg(s: Seq<u64>)
    ensures
        0 <= score_sum(s),
    decreases s.len(),
{
    if s.len() > 0 {
        lemma_score_sum_nonneg(s.drop_last());
    }
}

pub fn overall_score(scores: &Vec<u64>) -> (r: u64)
    requires
        score_sum(scores@) <= u64::MAX,
    ensures
        r == mean_score(scores@),
{
    let n = scores.len();
    let mut total: u64 = 0;
    let mut i: usize = 0;
    while i < n
        invariant
            n == scores@.len(),
            i <= n,
            total == score_sum(scores@.take(i as int)),
            score_sum(scores@) <= u64::MAX,
        decreases n - i,
    {
        proof {
            lemma_score_sum_bounds(scores@, i + 1);
            assert(scores@.take(i + 1).drop_last() =~= scores@.take(i as int));
        }
        total = total + scores[i];
        i += 1;
    }
    assert(scores@.take(n as int) =~= scores@);
    if n == 0 {
        0
    } else {
        total / (n as u64)
    }
}

/// A better score never earns a worse grade.
pub proof fn law_grades_are_monotone(a: int, b: int)
    requires
        a <= b,
    ensures
        grade_rank(a) <= grade_rank(b),
{
}

/// The overall score lies between the lowest and the highest tier score.
pub proof fn law_overall_score_between_tiers(s: Seq<u64>, lo: int, hi: int)
    requires
        s.len() > 0,
        forall|i: int| 0 <= i < s.len() ==> lo <= #[trigger] s[i] <= hi,
    ensures
        lo <= mean_score(s) <= hi,
{
    lemma_sum_between(s, lo, hi);
    let n = s.len() as int;
    let t = score_sum(s);
    assert(lo <= t / n <= hi) by (nonlinear_arith)
        requires n > 0, n * lo <= t <= n * hi;
}

proof fn lemma_sum_between(s: Seq<u64>, lo: int, hi: int)
    requires
        forall|i: int| 0 <= i < s.len() ==> lo <= #[trigger] s[i] <= hi,
    ensures
        s.len() * lo <= score_sum(s) <= s.len() * hi,
    decreases s.len(),
{
    if s.len() > 0 {
        let d = s.drop_last();
        assert forall|i: int| 0 <= i < d.len() implies lo <= #[trigger] d[i] <= hi by {
            assert(d[i] == s[i]);
        }
        lemma_sum_between(d, lo, hi);
        assert(s.len() * lo == d.len() * lo + lo) by (nonlinear_arith)
            requires s.len() == d.len() + 1;
        assert(s.len() * hi == d.len() * hi + hi) by (nonlinear_arith)
            requires s.len() == d.len() + 1;
    }
}

/// The report timestamp for `secs` seconds after the epoch.
pub open spec fn timestamp_text(secs: nat) -> Seq<char> {
    "UNIX-"@ + decimal(secs)
}

pub fn timestamp_label(secs: u64) -> (r: String)
    ensures
        r@ == timestamp_text(secs as nat),
{
    let digits = decimal_text(secs as u128);
    String::from_str("UNIX-").concat(digits.as_str())
}

/// The report timestamp for now: whole seconds since the epoch, 0 when the
/// clock reads earlier than the epoch.
pub fn chrono_like_timestamp() -> (r: String)
    ensures
        exists|secs: nat| r@ == timestamp_text(secs),
{
    let secs = match duration_since_epoch(&now()) {
        Some(d) => whole_secs(&d),
        None => 0,
    };
    let r = timestamp_label(secs);
    assert(r@ == timestamp_text(secs as nat));
    r
}

/// Each grade is earned exactly on its band of scores: S+ from 100 000 up,
/// S from 60 000, A from 35 000, B from 18 000, C from 8 000, and D below.
pub proof fn law_grade_bands(score: int)
    ensures
        (grade_of(score) == "S+"@) <==> (score >= 100_000),
        (grade_of(score) == "S"@) <==> (60_000 <= score < 100_000),
        (grade_of(score) == "A"@) <==> (35_000 <= score < 60_000),
        (grade_of(score) == "B"@) <==> (18_000 <= score < 35_000),
        (grade_of(score) == "C"@) <==> (8_000 <= score < 18_000),
        (grade_of(score) == "D"@) <==> (score < 8_000),
{
    reveal_strlit("S+");
    reveal_strlit("S");
    reveal_strlit("A");
    reveal_strlit("B");
    reveal_strlit("C");
    reveal_strlit("D");
    assert("S+"@.len() == 2);
    assert("S"@.len() == 1 && "S"@[0] == 'S');
    assert("A"@.len() == 1 && "A"@[0] == 'A');
    assert("B"@.len() == 1 && "B"@[0] == 'B');
    assert("C"@.len() == 1 && "C"@[0] == 'C');
    assert("D"@.len() == 1 && "D"@[0] == 'D');
}

/// Without an engine choice both engines run their tiers; choosing `gpu` or
/// `cpu` runs that engine alone; a chosen particle count replaces the
/// default tiers of each engine that runs by that count alone.
pub proof fn law_engine_choice(custom: Option<usize>, choice: Option<Seq<char>>)
    ensures
        choice is None ==> engine_selected(choice, "gpu"@) && engine_selected(choice, "cpu"@),
        choice == Some("gpu"@) ==> engine_selected(choice, "gpu"@) && !engine_selected(
            choice,
            "cpu"@,
        ),
        choice == Some("cpu"@) ==> !engine_selected(choice, "gpu"@) && engine_selected(
            choice,
            "cpu"@,
        ),
        custom matches Some(p) ==> tiers_for(custom, default_gpu_tiers()) == seq![p]
            && tiers_for(custom, default_cpu_tiers()) == seq![p],
        custom is None ==> tiers_for(custom, default_gpu_tiers()).len() == 4 && tiers_for(
            custom,
            default_cpu_tiers(),
        ).len() == 3,
{
    reveal_strlit("gpu");
    reveal_strlit("cpu");
    assert("gpu"@[0] == 'g' && "cpu"@[0] == 'c');
}

} // verus!
