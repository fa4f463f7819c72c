//! The bodies of the benchmark workloads: what one iteration computes.
//!
//! A benchmark throws its results away. They are returned here all the
//! same, each with the contract of what it is, so that what is timed is
//! known to be the work that was meant.

use crate::utils::json::{json_parsed, reformat};
use crate::utils::records::{keys_of, lemma_key_index_is, Entry, StringMap};
use crate::utils::text::{
    decimal, lemma_decimal_injective, push_decimal, push_repeated, repeated, uppercase_of,
};
use vstd::prelude::*;
use vstd::relations::{sorted_by, total_ordering};
use vstd::seq_lib::lemma_sorted_unique;
use vstd::string::StringExecFns;

verus! {

/// Whether `c` is one of the five lower-case vowels.
pub open spec fn is_vowel(c: char) -> bool {
    c == 'a' || c == 'e' || c == 'i' || c == 'o' || c == 'u'
}

/// `s` with every lower-case vowel replaced by an asterisk.
pub open spec fn masked(s: Seq<char>) -> Seq<char> {
    Seq::new(
        s.len(),
        |i: int|
            if is_vowel(s[i]) {
                '*'
            } else {
                s[i]
            },
    )
}

/// The characters of `s` with `sep` between each two of them.
pub open spec fn joined(s: Seq<char>, sep: char) -> Seq<char> {
    Seq::new(
        if s.len() == 0 {
            0
        } else {
            (2 * s.len() - 1) as nat
        },
        |i: int|
            if i % 2 == 0 {
                s[i / 2]
            } else {
                sep
            },
    )
}

/// What iteration `i` of the string workload builds: a greeting with the
/// iteration's number, in upper case, reversed, its vowels masked, its
/// characters joined by hyphens.
pub open spec fn string_workload_text(i: nat) -> Seq<char> {
    joined(masked(uppercase_of("Hello World "@ + decimal(i)).reverse()), '-')
}

/// The characters of `s`.
pub fn chars_of(s: &str) -> (v: Vec<char>)
    ensures
        v@ == s@,
{
    let mut v: Vec<char> = Vec::new();
    for c in it: s.chars()
        invariant
            v@ == it.seq().take(it.index() as int),
            it.seq() == s@,
    {
        v.push(c);
    }
    assert(v@ =~= s@);
    v
}

/// `v` back to front.
pub fn reversed<T: Copy>(v: &Vec<T>) -> (r: Vec<T>)
    ensures
        r@ == v@.reverse(),
{
    let mut r: Vec<T> = Vec::new();
    let mut i: usize = v.len();
    while i > 0
        invariant
            i <= v.len(),
            r@.len() == v.len() - i,
            forall|k: int| 0 <= k < r@.len() ==> r@[k] == v@[v.len() - 1 - k],
        decreases i,
    {
        i = i - 1;
        r.push(v[i]);
    }
    assert(r@ =~= v@.reverse());
    r
}

/// `v` with every lower-case vowel replaced by an asterisk.
pub fn mask_vowels(v: &Vec<char>) -> (r: Vec<char>)
    ensures
        r@ == masked(v@),
{
    let mut r: Vec<char> = Vec::new();
    let mut i: usize = 0;
    while i < v.len()
        invariant
            i <= v.len(),
            r@ == masked(v@).take(i as int),
        decreases v.len() - i,
    {
        let c: char = v[i];
        if c == 'a' || c == 'e' || c == 'i' || c == 'o' || c == 'u' {
            r.push('*');
        } else {
            r.push(c);
        }
        i = i + 1;
        assert(r@ =~= masked(v@).take(i as int));
    }
    assert(masked(v@).take(i as int) =~= masked(v@));
    r
}

/// The characters of `v` as a string, with `sep` between each two.
pub fn join_chars(v: &Vec<char>, sep: char) -> (s: String)
    ensures
        s@ == joined(v@, sep),
{
    let mut s = String::new();
    let mut i: usize = 0;
    while i < v.len()
        invariant
            i <= v.len(),
            s@ == joined(v@.take(i as int), sep),
        decreases v.len() - i,
    {
        if i > 0 {
            s.push(sep);
        }
        s.push(v[i]);
        i = i + 1;
        assert(s@ =~= joined(v@.take(i as int), sep));
    }
    assert(v@.take(i as int) =~= v@);
    s
}

/// One iteration of the string workload.
pub fn string_manipulation(i: usize) -> (s: String)
    ensures
        s@ == string_workload_text(i as nat),
{
    let mut text = String::from_str("Hello World ");
    push_decimal(&mut text, i as u128);
    let upper = text.as_str().to_uppercase();
    let letters = chars_of(upper.as_str());
    let backwards = reversed(&letters);
    let hidden = mask_vowels(&backwards);
    join_chars(&hidden, '-')
}

/// What the array workload adds up for the numbers from one to `n`: the
/// doubles that are multiples of three, which are the multiples of six up
/// to `2 * n`.
pub open spec fn array_workload_sum(n: int) -> int {
    3 * (n / 3) * (n / 3 + 1)
}

/// What the array workload is left with for the numbers from one to `n`:
/// the multiples of six up to `2 * n`, largest first.
pub open spec fn array_workload_numbers(n: int) -> Seq<i32> {
    Seq::new((n / 3) as nat, |k: int| (6 * (n / 3 - k)) as i32)
}

/// Sorts with `sort_unstable` of std. Trusted: afterwards the vector holds
/// the same numbers as before, in ascending order.
#[verifier::external_body]
fn sort_ascending(v: &mut Vec<i32>)
    ensures
        final(v)@.to_multiset() == old(v)@.to_multiset(),
        forall|i: int, j: int| 0 <= i < j < final(v)@.len() ==> final(v)@[i] <= final(v)@[j],
{
    v.sort_unstable();
}

/// `numbers` in descending order.
pub fn sorted_descending(numbers: Vec<i32>) -> (r: Vec<i32>)
    ensures
        r@.to_multiset() == numbers@.to_multiset(),
        forall|i: int, j: int| 0 <= i < j < r@.len() ==> r@[i] >= r@[j],
{
    let mut ascending = numbers;
    sort_ascending(&mut ascending);
    let r = reversed(&ascending);
    proof {
        ascending@.lemma_reverse_to_multiset();
    }
    r
}

/// One iteration of the array workload on the numbers from one to `n`:
/// doubles them, keeps the multiples of three, sorts them, turns them to
/// descending order and adds them up. The bound on `n` is the largest
/// for which the sum fits in an `i32`.
pub fn array_operations(n: i32) -> (r: (Vec<i32>, i32))
    requires
        0 <= n <= 80_264,
    ensures
        r.0@ == array_workload_numbers(n as int),
        r.1 == array_workload_sum(n as int),
{
    let mut numbers: Vec<i32> = Vec::new();
    let mut k: i32 = 1;
    while k <= n
        invariant
            1 <= k <= n + 1,
            n <= 80_264,
            numbers@.len() == k - 1,
            forall|j: int| 0 <= j < numbers@.len() ==> numbers@[j] == j + 1,
        decreases n + 1 - k,
    {
        numbers.push(k);
        k = k + 1;
    }
    let mut doubles: Vec<i32> = Vec::new();
    let mut i: usize = 0;
    while i < numbers.len()
        invariant
            i <= numbers.len(),
            numbers@.len() == n,
            n <= 80_264,
            forall|j: int| 0 <= j < numbers@.len() ==> numbers@[j] == j + 1,
            doubles@.len() == i,
            forall|j: int| 0 <= j < i ==> doubles@[j] == 2 * (j + 1),
        decreases numbers.len() - i,
    {
        doubles.push(numbers[i] * 2);
        i = i + 1;
    }
    let mut kept: Vec<i32> = Vec::new();
    let mut i: usize = 0;
    while i < doubles.len()
        invariant
            i <= doubles.len(),
            doubles@.len() == n,
            n <= 80_264,
            forall|j: int| 0 <= j < doubles@.len() ==> doubles@[j] == 2 * (j + 1),
            kept@.len() == i / 3,
            forall|j: int| 0 <= j < kept@.len() ==> kept@[j] == 6 * (j + 1),
        decreases doubles.len() - i,
    {
        if doubles[i] % 3 == 0 {
            kept.push(doubles[i]);
        }
        i = i + 1;
    }
    let ghost ascending = kept@;
    let m: i32 = n / 3;
    assert(ascending.len() == m);
    assert(3 * m * (m + 1) <= i32::MAX) by (nonlinear_arith)
        requires
            0 <= m <= 26_754,
    ;
    let descending = sorted_descending(kept);
    proof {
        let geq = |a: i32, b: i32| a >= b;
        let expected = ascending.reverse();
        ascending.lemma_reverse_to_multiset();
        assert(total_ordering(geq));
        assert(sorted_by(expected, geq));
        assert(sorted_by(descending@, geq));
        lemma_sorted_unique(descending@, expected, geq);
    }
    assert(forall|j: int| 0 <= j < m ==> descending@[j] == 6 * (m - j));
    let mut sum: i32 = 0;
    let mut i: usize = 0;
    while i < descending.len()
        invariant
            i <= descending.len(),
            descending@.len() == m,
            0 <= m,
            3 * m * (m + 1) <= i32::MAX,
            forall|j: int| 0 <= j < m ==> descending@[j] == 6 * (m - j),
            sum == 3 * m * (m + 1) - 3 * (m - i) * (m - i + 1),
            0 <= sum <= 3 * m * (m + 1),
        decreases descending.len() - i,
    {
        let ghost x = m - i;
        assert(3 * x * (x + 1) - 6 * x == 3 * (x - 1) * x) by (nonlinear_arith);
        assert(3 * (x - 1) * x >= 0) by (nonlinear_arith)
            requires
                x >= 1,
        ;
        sum = sum + descending[i];
        i = i + 1;
    }
    (descending, sum)
}

/// The line that iteration `i` of the file workload writes: the
/// iteration's number, a hundred `x`, and a line feed.
pub open spec fn file_workload_line(i: nat) -> Seq<char> {
    "Line "@ + decimal(i) + ": "@ + repeated('x', 100) + "\n"@
}

/// The line that iteration `i` of the file workload writes.
pub fn file_line(i: usize) -> (s: String)
    ensures
        s@ == file_workload_line(i as nat),
{
    let mut s = String::from_str("Line ");
    push_decimal(&mut s, i as u128);
    s.append(": ");
    push_repeated(&mut s, 'x', 100);
    s.append("\n");
    s
}

/// One thing the file workload asks of the host.
#[derive(Debug, Clone, PartialEq, Eq)]
pub enum FileAction {
    /// Create the temporary file that the whole workload writes to.
    Create,
    /// Write the line to the file.
    Write(String),
    /// Flush the file.
    Flush,
}

/// The view of [`FileAction`] in specifications.
pub enum FileActionView {
    Create,
    Write(Seq<char>),
    Flush,
}

impl View for FileAction {
    type V = FileActionView;

    open spec fn view(&self) -> FileActionView {
        match self {
            FileAction::Create => FileActionView::Create,
            FileAction::Write(line) => FileActionView::Write(line@),
            FileAction::Flush => FileActionView::Flush,
        }
    }
}

/// What the file workload is waiting on.
#[derive(Debug, Clone, Copy, PartialEq, Eq, Structural)]
pub enum FilePhase {
    Creating,
    Writing,
    Flushing,
}

/// The file workload under way: how many lines it writes in all, which
/// line it is at, and what it is waiting on.
#[derive(Debug, Clone, Copy, PartialEq, Eq, Structural)]
pub struct FileWorkload {
    pub iterations: usize,
    pub line: usize,
    pub phase: FilePhase,
}

/// Everything the file workload asks for when nothing fails: the file is
/// created once, then every iteration writes its line and flushes.
pub open spec fn file_workload_script(iterations: nat) -> Seq<FileActionView> {
    Seq::new(
        1 + 2 * iterations,
        |k: int|
            if k == 0 {
                FileActionView::Create
            } else if k % 2 == 1 {
                FileActionView::Write(file_workload_line(((k - 1) / 2) as nat))
            } else {
                FileActionView::Flush
            },
    )
}

impl FileWorkload {
    /// Whether the state is one that the workload can be in.
    pub open spec fn wf(self) -> bool {
        self.phase == FilePhase::Creating ==> self.line == 0
    }

    /// The place in the script of the action that the workload is
    /// waiting on.
    pub open spec fn position(self) -> nat {
        match self.phase {
            FilePhase::Creating => 0,
            FilePhase::Writing => (1 + 2 * self.line) as nat,
            FilePhase::Flushing => (2 + 2 * self.line) as nat,
        }
    }

    /// What follows when the pending action ended as `succeeded` says.
    ///
    /// Without the file there is nothing to write, so a failed creation
    /// ends the workload. A failed write or flush is passed over and the
    /// workload goes on. After the last flush the workload is over.
    pub open spec fn next(self, succeeded: bool) -> Option<(FileActionView, FileWorkload)> {
        match self.phase {
            FilePhase::Creating => if succeeded && self.iterations > 0 {
                Some(
                    (
                        FileActionView::Write(file_workload_line(0)),
                        FileWorkload { iterations: self.iterations, line: 0, phase: FilePhase::Writing },
                    ),
                )
            } else {
                None
            },
            FilePhase::Writing => Some(
                (
                    FileActionView::Flush,
                    FileWorkload {
                        iterations: self.iterations,
                        line: self.line,
                        phase: FilePhase::Flushing,
                    },
                ),
            ),
            FilePhase::Flushing => if self.line + 1 < self.iterations {
                Some(
                    (
                        FileActionView::Write(file_workload_line((self.line + 1) as nat)),
                        FileWorkload {
                            iterations: self.iterations,
                            line: (self.line + 1) as usize,
                            phase: FilePhase::Writing,
                        },
                    ),
                )
            } else {
                None
            },
        }
    }

    /// Begins the workload: the temporary file is asked for.
    pub fn start(iterations: usize) -> (r: (FileAction, FileWorkload))
        ensures
            r.0@ == FileActionView::Create,
            r.1 == (FileWorkload { iterations, line: 0, phase: FilePhase::Creating }),
    {
        (FileAction::Create, FileWorkload { iterations, line: 0, phase: FilePhase::Creating })
    }

    /// Takes the outcome of the pending action and gives the next one, or
    /// nothing when the workload is over.
    pub fn advance(self, succeeded: bool) -> (r: Option<(FileAction, FileWorkload)>)
        ensures
            match r {
                Some((action, state)) => self.next(succeeded) == Some((action@, state)),
                None => self.next(succeeded) is None,
            },
    {
        match self.phase {
            FilePhase::Creating => {
                if succeeded && self.iterations > 0 {
                    Some(
                        (
                            FileAction::Write(file_line(0)),
                            FileWorkload {
                                iterations: self.iterations,
                                line: 0,
                                phase: FilePhase::Writing,
                            },
                        ),
                    )
                } else {
                    None
                }
            },
            FilePhase::Writing => Some(
                (
                    FileAction::Flush,
                    FileWorkload {
                        iterations: self.iterations,
                        line: self.line,
                        phase: FilePhase::Flushing,
                    },
                ),
            ),
            FilePhase::Flushing => {
                if self.line < self.iterations && self.line + 1 < self.iterations {
                    Some(
                        (
                            FileAction::Write(file_line(self.line + 1)),
                            FileWorkload {
                                iterations: self.iterations,
                                line: self.line + 1,
                                phase: FilePhase::Writing,
                            },
                        ),
                    )
                } else {
                    None
                }
            },
        }
    }
}

/// With the file created, the workload follows its script whatever the
/// writes and flushes come to: each action is the script's next, and the
/// workload is over exactly at the script's end. So it writes the line of
/// every iteration once, in order, and flushes after each.
pub proof fn lemma_file_workload_follows_script(state: FileWorkload, succeeded: bool)
    requires
        state.wf(),
        state.line < state.iterations || state.phase == FilePhase::Creating,
        state.phase == FilePhase::Creating ==> succeeded,
    ensures
        state.position() < file_workload_script(state.iterations as nat).len(),
        match state.next(succeeded) {
            Some((action, after)) => {
                &&& after.position() == state.position() + 1
                &&& after.iterations == state.iterations
                &&& after.line < after.iterations
                &&& action == file_workload_script(state.iterations as nat)[after.position() as int]
            },
            None => state.position() + 1 == file_workload_script(state.iterations as nat).len(),
        },
{
}

/// The JSON text of user number `i` of the sample document.
pub open spec fn sample_user_text(i: nat) -> Seq<char> {
    "{\"email\":\"user"@ + decimal(i) + "@example.com\",\"id\":"@ + decimal(i)
        + ",\"metadata\":{\"created_at\":\"2025-01-15T00:00:00Z\",\"tags\":[\"ruby\",\"ptd\",\"cli\",\"benchmark\"]},\"name\":\"User "@
        + decimal(i) + "\"}"@
}

/// The JSON texts of the first `n` users, separated by commas.
pub open spec fn sample_users_text(n: nat) -> Seq<char>
    decreases n,
{
    if n == 0 {
        Seq::empty()
    } else if n == 1 {
        sample_user_text(1)
    } else {
        sample_users_text((n - 1) as nat) + ","@ + sample_user_text(n)
    }
}

/// The sample document of the JSON workload: ten users, in compact form
/// with the keys of every object in alphabetical order.
pub open spec fn sample_document_text() -> Seq<char> {
    "{\"users\":["@ + sample_users_text(10) + "]}"@
}

/// Appends the JSON text of user number `i` of the sample document.
pub fn push_sample_user(out: &mut String, i: usize)
    ensures
        final(out)@ == old(out)@ + sample_user_text(i as nat),
{
    let ghost before = out@;
    out.append("{\"email\":\"user");
    push_decimal(out, i as u128);
    out.append("@example.com\",\"id\":");
    push_decimal(out, i as u128);
    assert(out@ == before + ("{\"email\":\"user"@ + decimal(i as nat) + "@example.com\",\"id\":"@
        + decimal(i as nat)));
    let ghost half = out@;
    out.append(
        ",\"metadata\":{\"created_at\":\"2025-01-15T00:00:00Z\",\"tags\":[\"ruby\",\"ptd\",\"cli\",\"benchmark\"]},\"name\":\"User ",
    );
    push_decimal(out, i as u128);
    out.append("\"}");
    assert(out@ == half + (
    ",\"metadata\":{\"created_at\":\"2025-01-15T00:00:00Z\",\"tags\":[\"ruby\",\"ptd\",\"cli\",\"benchmark\"]},\"name\":\"User "@
        + decimal(i as nat) + "\"}"@));
    assert(out@ == before + sample_user_text(i as nat));
}

/// The sample document of the JSON workload.
pub fn sample_document() -> (s: String)
    ensures
        s@ == sample_document_text(),
{
    let mut s = String::from_str("{\"users\":[");
    let ghost head = s@;
    push_sample_user(&mut s, 1);
    assert(s@ == head + sample_users_text(1));
    let mut i: usize = 2;
    while i <= 10
        invariant
            2 <= i <= 11,
            s@ == head + sample_users_text((i - 1) as nat),
        decreases 11 - i,
    {
        let ghost before = s@;
        s.append(",");
        push_sample_user(&mut s, i);
        assert(s@ == before + ","@ + sample_user_text(i as nat));
        assert(sample_users_text(i as nat) == sample_users_text((i - 1) as nat) + ","@
            + sample_user_text(i as nat));
        assert(s@ == head + sample_users_text(i as nat));
        i = i + 1;
    }
    s.append("]}");
    s
}

/// What one iteration of the JSON workload gives for `text`: the compact
/// text of the document that it holds, or nothing where it is no JSON.
pub open spec fn round_trip(text: Seq<char>) -> Option<Seq<char>> {
    match json_parsed(text) {
        Ok(compact) => Some(compact),
        Err(_) => None,
    }
}

/// One iteration of the JSON workload: parses `text` and writes the
/// document back in compact form. Text that is no JSON gives nothing.
pub fn json_parsing(text: &str) -> (r: Option<String>)
    ensures
        match r {
            Some(s) => round_trip(text@) == Some(s@),
            None => round_trip(text@) is None,
        },
{
    match reformat(text, false) {
        Ok(s) => Some(s),
        Err(_) => None,
    }
}

/// Whether `a` comes before `b`, or is `b`, in the order of strings:
/// character by character by code point, a prefix before what it starts.
pub open spec fn text_le(a: Seq<char>, b: Seq<char>) -> bool
    decreases a.len(),
{
    if a.len() == 0 {
        true
    } else if b.len() == 0 {
        false
    } else if a[0] != b[0] {
        (a[0] as u32) < (b[0] as u32)
    } else {
        text_le(a.drop_first(), b.drop_first())
    }
}

/// Sorts with `sort` of std. Trusted: afterwards the vector holds the
/// same strings as before, in the order of strings.
#[verifier::external_body]
fn sort_strings(v: &mut Vec<String>)
    ensures
        final(v).deep_view().to_multiset() == old(v).deep_view().to_multiset(),
        forall|i: int, j: int|
            0 <= i < j < final(v)@.len() ==> text_le(
                #[trigger] final(v).deep_view()[i],
                #[trigger] final(v).deep_view()[j],
            ),
{
    v.sort();
}

/// The key of entry `i` of the map workload.
pub open spec fn key_name(i: nat) -> Seq<char> {
    "key_"@ + decimal(i)
}

/// The entries that the map workload starts from: `count` keys, each
/// with twice its number.
pub open spec fn built_entries(count: nat) -> Seq<Entry<i32>> {
    Seq::new(count, |k: int| (key_name(k as nat), (2 * k) as i32))
}

/// The entries that the map workload keeps: those whose value is over
/// fifty, in their order, and the extra entry.
pub open spec fn kept_entries(count: nat) -> Seq<Entry<i32>> {
    Seq::new(
        if count <= 26 {
            0
        } else {
            (count - 26) as nat
        },
        |k: int| (key_name((k + 26) as nat), (2 * (k + 26)) as i32),
    ).push(("extra"@, 999i32))
}

/// What one iteration of the map workload computes.
pub struct MapOutcome {
    /// The keys of the built map, sorted.
    pub sorted_keys: Vec<String>,
    /// The sum of the values of the built map.
    pub value_sum: i32,
    /// The entries whose value is over fifty, the extra entry among them.
    pub kept: StringMap<i32>,
}

/// Whether `outcome` is what one iteration of the map workload with
/// `count` keys computes: the keys of the built map in the order of
/// strings, the sum of its values, and the entries that it keeps.
pub open spec fn is_map_outcome(outcome: MapOutcome, count: nat) -> bool {
    &&& outcome.sorted_keys.deep_view().to_multiset() == keys_of(
        built_entries(count),
    ).to_multiset()
    &&& forall|i: int, j: int|
        0 <= i < j < outcome.sorted_keys@.len() ==> text_le(
            #[trigger] outcome.sorted_keys.deep_view()[i],
            #[trigger] outcome.sorted_keys.deep_view()[j],
        )
    &&& outcome.value_sum == count * (count - 1)
    &&& outcome.kept.entries() == kept_entries(count)
}

/// Different numbers have different keys, and none of them is the extra
/// key.
pub proof fn lemma_key_names(a: nat, b: nat)
    ensures
        key_name(a) == key_name(b) ==> a == b,
        key_name(a) != "extra"@,
{
    let p = "key_"@;
    reveal_strlit("key_");
    reveal_strlit("extra");
    if key_name(a) == key_name(b) {
        assert((p + decimal(a)).subrange(4, (p + decimal(a)).len() as int) =~= decimal(a));
        assert((p + decimal(b)).subrange(4, (p + decimal(b)).len() as int) =~= decimal(b));
        lemma_decimal_injective(a, b);
    }
    assert(key_name(a)[0] == 'k');
    assert("extra"@[0] == 'e');
}

fn key_for(i: usize) -> (s: String)
    ensures
        s@ == key_name(i as nat),
{
    let mut s = String::from_str("key_");
    push_decimal(&mut s, i as u128);
    s
}

/// One iteration of the map workload with `count` keys: builds the map,
/// sorts its keys, adds up its values, inserts the extra entry and keeps
/// the entries whose value is over fifty. The bound on `count` is the
/// largest for which the sum of the values fits in an `i32`.
pub fn hash_operations(count: usize) -> (r: MapOutcome)
    requires
        count <= 46_341,
    ensures
        is_map_outcome(r, count as nat),
{
    let mut map: StringMap<i32> = StringMap::new();
    let mut i: usize = 0;
    while i < count
        invariant
            i <= count,
            count <= 46_341,
            map.entries() == built_entries(i as nat),
        decreases count - i,
    {
        proof {
            let so_far = built_entries(i as nat);
            assert forall|j: int| 0 <= j < so_far.len() implies (#[trigger] so_far[j]).0 != key_name(
                i as nat,
            ) by {
                lemma_key_names(j as nat, i as nat);
            }
            lemma_key_index_is(so_far, key_name(i as nat), i as int);
            assert(so_far.push((key_name(i as nat), (2 * i) as i32)) =~= built_entries(
                (i + 1) as nat,
            ));
        }
        map.insert(key_for(i), (2 * i) as i32);
        i = i + 1;
    }
    let mut sorted_keys = map.keys();
    sort_strings(&mut sorted_keys);
    assert(sorted_keys.deep_view().to_multiset() == keys_of(
        built_entries(count as nat),
    ).to_multiset());
    let mut value_sum: i32 = 0;
    let mut i: usize = 0;
    while i < map.len()
        invariant
            i <= count,
            count <= 46_341,
            map.entries() == built_entries(count as nat),
            value_sum == i * (i - 1),
        decreases count - i,
    {
        assert(i * (i - 1) + 2 * i == (i + 1) * i) by (nonlinear_arith);
        assert((i + 1) * i <= 46_341 * 46_340) by (nonlinear_arith)
            requires
                0 <= i < 46_341,
        ;
        let (_, value) = map.entry_at(i);
        assert(*value == 2 * i);
        value_sum = value_sum + *value;
        i = i + 1;
    }
    assert(value_sum == count * (count - 1));
    proof {
        let built = built_entries(count as nat);
        assert forall|j: int| 0 <= j < built.len() implies (#[trigger] built[j]).0 != "extra"@ by {
            lemma_key_names(j as nat, 0);
        }
        lemma_key_index_is(built, "extra"@, count as int);
    }
    map.insert(String::from_str("extra"), 999);
    let ghost all = built_entries(count as nat).push(("extra"@, 999i32));
    let mut kept: StringMap<i32> = StringMap::new();
    let mut i: usize = 0;
    while i < count
        invariant
            i <= count,
            count <= 46_341,
            map.entries() == all,
            all == built_entries(count as nat).push(("extra"@, 999i32)),
            kept.entries() == kept_entries(i as nat).drop_last(),
        decreases count - i,
    {
        let (key, value) = map.entry_at(i);
        assert(all[i as int] == built_entries(count as nat)[i as int]);
        if *value > 50 {
            proof {
                let so_far = kept_entries(i as nat).drop_last();
                assert forall|j: int| 0 <= j < so_far.len() implies (#[trigger] so_far[j]).0
                    != key_name(i as nat) by {
                    lemma_key_names((j + 26) as nat, i as nat);
                }
                lemma_key_index_is(so_far, key_name(i as nat), so_far.len() as int);
                assert(so_far.push((key_name(i as nat), (2 * i) as i32)) =~= kept_entries(
                    (i + 1) as nat,
                ).drop_last());
            }
            kept.insert(key.clone(), *value);
        } else {
            assert(kept_entries(i as nat).drop_last() =~= kept_entries((i + 1) as nat).drop_last());
        }
        i = i + 1;
    }
    proof {
        let so_far = kept_entries(count as nat).drop_last();
        assert forall|j: int| 0 <= j < so_far.len() implies (#[trigger] so_far[j]).0 != "extra"@ by {
            lemma_key_names((j + 26) as nat, 0);
        }
        lemma_key_index_is(so_far, "extra"@, so_far.len() as int);
        assert(so_far.push(("extra"@, 999i32)) =~= kept_entries(count as nat));
    }
    let (key, value) = map.entry_at(count);
    assert(all[count as int] == ("extra"@, 999i32));
    kept.insert(key.clone(), *value);
    assert(kept.entries() == kept_entries(count as nat));
    MapOutcome { sorted_keys, value_sum, kept }
}

} // verus!
