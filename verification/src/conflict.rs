//! Destination names that collide with nothing already present.

use vstd::prelude::*;
use vstd::set_lib::*;
use vstd::string::*;

verus! {

/// The character that writes the digit `d`.
pub open spec fn digit_char(d: nat) -> char {
    if d == 0 {
        '0'
    } else if d == 1 {
        '1'
    } else if d == 2 {
        '2'
    } else if d == 3 {
        '3'
    } else if d == 4 {
        '4'
    } else if d == 5 {
        '5'
    } else if d == 6 {
        '6'
    } else if d == 7 {
        '7'
    } else if d == 8 {
        '8'
    } else {
        '9'
    }
}

/// `n` written in base ten, most significant digit first.
pub open spec fn decimal(n: nat) -> Seq<char>
    decreases n,
{
    if n < 10 {
        seq![digit_char(n)]
    } else {
        decimal(n / 10).push(digit_char(n % 10))
    }
}

/// The `n`-th alternative to `base`: an underscore and the counter behind it.
pub open spec fn numbered(base: Seq<char>, n: nat) -> Seq<char> {
    base + seq!['_'] + decimal(n)
}

/// Whether `name` is one of the names in `existing`.
pub open spec fn name_taken(existing: Seq<String>, name: Seq<char>) -> bool {
    exists|i: int| 0 <= i < existing.len() && (#[trigger] existing[i])@ == name
}

/// Whether `n` is the first counter, from 1 up, whose alternative is free.
pub open spec fn first_free(existing: Seq<String>, base: Seq<char>, n: nat) -> bool {
    &&& n >= 1
    &&& !name_taken(existing, numbered(base, n))
    &&& forall|m: nat| 1 <= m < n ==> name_taken(existing, #[trigger] numbered(base, m))
}

/// Whether entry `i` of `existing` is an alternative to `base` with a counter
/// of at least `n`.
pub open spec fn blocks_from(existing: Seq<String>, base: Seq<char>, n: nat, i: int) -> bool {
    exists|m: nat| m >= n && existing[i]@ == #[trigger] numbered(base, m)
}

/// The entries of `existing` that can still collide once the counter is `n`.
pub open spec fn blockers(existing: Seq<String>, base: Seq<char>, n: nat) -> Set<int> {
    Set::new(|i: int| 0 <= i < existing.len() && blocks_from(existing, base, n, i))
}

proof fn lemma_decimal_len(n: nat)
    ensures
        decimal(n).len() >= 1,
        n >= 10 ==> decimal(n).len() >= 2,
        n < 10 ==> decimal(n).len() == 1,
    decreases n,
{
    if n >= 10 {
        lemma_decimal_len(n / 10);
    }
}

/// Two numbers with the same decimal writing are the same number.
pub proof fn lemma_decimal_injective(a: nat, b: nat)
    requires
        decimal(a) == decimal(b),
    ensures
        a == b,
    decreases a,
{
    lemma_decimal_len(a);
    lemma_decimal_len(b);
    if a < 10 && b < 10 {
        assert(decimal(a)[0] == digit_char(a));
        assert(decimal(b)[0] == digit_char(b));
    } else if a >= 10 && b >= 10 {
        let sa = decimal(a / 10);
        let sb = decimal(b / 10);
        assert(decimal(a).last() == digit_char(a % 10));
        assert(decimal(b).last() == digit_char(b % 10));
        assert(decimal(a).drop_last() =~= sa);
        assert(decimal(b).drop_last() =~= sb);
        lemma_decimal_injective(a / 10, b / 10);
    }
}

/// Alternatives with different counters are different names, and none of them
/// is the base itself.
pub proof fn lemma_numbered_injective(base: Seq<char>, a: nat, b: nat)
    ensures
        numbered(base, a) == numbered(base, b) ==> a == b,
        numbered(base, a) != base,
{
    let k = base.len() as int + 1;
    assert(numbered(base, a).len() == k + decimal(a).len());
    if numbered(base, a) == numbered(base, b) {
        assert(numbered(base, a).subrange(k, numbered(base, a).len() as int) =~= decimal(a));
        assert(numbered(base, b).subrange(k, numbered(base, b).len() as int) =~= decimal(b));
        lemma_decimal_injective(a, b);
    }
}

proof fn lemma_blockers_start(existing: Seq<String>, base: Seq<char>, hit: int)
    requires
        0 <= hit < existing.len(),
        existing[hit]@ == base,
    ensures
        blockers(existing, base, 1).finite(),
        blockers(existing, base, 1).len() + 1 <= existing.len(),
{
    let all = set_int_range(0, existing.len() as int);
    lemma_int_range(0, existing.len() as int);
    let s = blockers(existing, base, 1);
    assert forall|i: int| s.contains(i) implies all.remove(hit).contains(i) by {
        if i == hit {
            let m = choose|m: nat| m >= 1 && existing[i]@ == #[trigger] numbered(base, m);
            lemma_numbered_injective(base, m, m);
        }
    }
    lemma_len_subset(s, all.remove(hit));
}

proof fn lemma_blockers_step(existing: Seq<String>, base: Seq<char>, n: nat, hit: int)
    requires
        0 <= hit < existing.len(),
        existing[hit]@ == numbered(base, n),
        blockers(existing, base, n).finite(),
    ensures
        blockers(existing, base, n + 1).finite(),
        blockers(existing, base, n + 1).len() < blockers(existing, base, n).len(),
{
    let s = blockers(existing, base, n);
    let t = blockers(existing, base, n + 1);
    assert(blocks_from(existing, base, n, hit));
    assert(s.contains(hit));
    assert forall|i: int| t.contains(i) implies s.remove(hit).contains(i) by {
        let m = choose|m: nat| m >= n + 1 && existing[i]@ == #[trigger] numbered(base, m);
        assert(blocks_from(existing, base, n, i));
        if i == hit {
            lemma_numbered_injective(base, m, n);
        }
    }
    lemma_len_subset(t, s.remove(hit));
}

fn digit_str(d: usize) -> (s: &'static str)
    requires
        d < 10,
    ensures
        s@ == seq![digit_char(d as nat)],
{
    proof {
        reveal_strlit("0");
        reveal_strlit("1");
        reveal_strlit("2");
        reveal_strlit("3");
        reveal_strlit("4");
        reveal_strlit("5");
        reveal_strlit("6");
        reveal_strlit("7");
        reveal_strlit("8");
        reveal_strlit("9");
    }
    let s = if d == 0 {
        "0"
    } else if d == 1 {
        "1"
    } else if d == 2 {
        "2"
    } else if d == 3 {
        "3"
    } else if d == 4 {
        "4"
    } else if d == 5 {
        "5"
    } else if d == 6 {
        "6"
    } else if d == 7 {
        "7"
    } else if d == 8 {
        "8"
    } else {
        "9"
    };
    assert(s@ =~= seq![digit_char(d as nat)]);
    s
}

/// Writes `n` in base ten.
pub fn decimal_string(n: usize) -> (s: String)
    ensures
        s@ == decimal(n as nat),
    decreases n,
{
    if n < 10 {
        String::from_str(digit_str(n))
    } else {
        let mut s = decimal_string(n / 10);
        s.append(digit_str(n % 10));
        assert(s@ =~= decimal(n as nat));
        s
    }
}

/// Where `name` stands in `existing`, if it does.
pub fn find_name(existing: &Vec<String>, name: &str) -> (found: Option<usize>)
    ensures
        match found {
            Some(i) => i < existing.len() && existing[i as int]@ == name@,
            None => !name_taken(existing@, name@),
        },
{
    let wanted = String::from_str(name);
    let mut i: usize = 0;
    while i < existing.len()
        invariant
            i <= existing.len(),
            wanted@ == name@,
            forall|k: int| 0 <= k < i ==> existing[k]@ != name@,
        decreases existing.len() - i,
    {
        if existing[i] == wanted {
            return Some(i);
        }
        i = i + 1;
    }
    None
}

/// Computes destination names that collide with nothing in a directory.
pub struct ConflictResolver {}

impl ConflictResolver {
    /// The name under which `candidate` can be created beside `existing`:
    /// `candidate` itself where it is free, else its first free alternative,
    /// counting from 1. The answer holds of the names given: a name that
    /// someone else creates afterwards is not seen, and creating the entry
    /// then fails like any other filesystem call.
    pub fn resolve(candidate: &str, existing: &Vec<String>) -> (name: String)
        ensures
            !name_taken(existing@, name@),
            !name_taken(existing@, candidate@) ==> name@ == candidate@,
            name_taken(existing@, candidate@) ==> name@ != candidate@ && exists|n: nat|
                first_free(existing@, candidate@, n) && name@ == numbered(candidate@, n),
    {
        let hit = match find_name(existing, candidate) {
            None => {
                return String::from_str(candidate);
            },
            Some(i) => i,
        };
        let mut n: usize = 1;
        proof {
            lemma_blockers_start(existing@, candidate@, hit as int);
        }
        loop
            invariant
                1 <= n,
                name_taken(existing@, candidate@),
                blockers(existing@, candidate@, n as nat).finite(),
                n + blockers(existing@, candidate@, n as nat).len() <= existing.len(),
                forall|m: nat|
                    1 <= m < n ==> name_taken(existing@, #[trigger] numbered(candidate@, m)),
            decreases blockers(existing@, candidate@, n as nat).len(),
        {
            let mut name = String::from_str(candidate);
            name.append("_");
            let digits = decimal_string(n);
            name.append(digits.as_str());
            proof {
                reveal_strlit("_");
                assert("_"@ =~= seq!['_']);
                assert(name@ =~= numbered(candidate@, n as nat));
                lemma_numbered_injective(candidate@, n as nat, n as nat);
            }
            match find_name(existing, name.as_str()) {
                None => {
                    assert(first_free(existing@, candidate@, n as nat));
                    return name;
                },
                Some(j) => {
                    proof {
                        lemma_blockers_step(existing@, candidate@, n as nat, j as int);
                    }
                    n = n + 1;
                },
            }
        }
    }
}

} // verus!
