//! The supply of trial seeds: explicit lists, seed files and the random
//! stream.

use crate::text::{
    all_digits, append_decimal, decimal_digits, decimal_value, is_digit,
    lemma_decimal_digits_are_digits, lemma_decimal_round_trip, lines_of, split_lines, views,
};
use rand::rngs::ThreadRng;
use rand::Rng;
use vstd::prelude::*;
use vstd::string::StringExecFns;

verus! {

broadcast use vstd::string::group_string_axioms;

/// Largest value a trial seed may take.
pub const MAX_SEED: u32 = u32::MAX;

// ---------------------------------------------------------------------------
// Seed files
// ---------------------------------------------------------------------------

/// Why a line of a seed file is not a seed.
#[derive(Clone, Copy, Debug, PartialEq, Eq, Structural)]
pub enum SeedLineFault {
    /// The line is empty.
    Empty,
    /// The line holds a character that is no decimal digit, or a sign alone.
    InvalidDigit,
    /// The digits denote a number greater than `MAX_SEED`.
    TooLarge,
}

/// The first line of a seed file that is not a seed.
#[derive(Clone, Copy, Debug, PartialEq, Eq, Structural)]
pub struct SeedFileError {
    /// Number of the line; the first line of a file is line 1.
    pub line: usize,
    /// What is wrong with it.
    pub fault: SeedLineFault,
}

impl SeedLineFault {
    /// What is wrong, in words.
    pub open spec fn description(self) -> Seq<char> {
        match self {
            SeedLineFault::Empty => "cannot parse a seed from an empty line"@,
            SeedLineFault::InvalidDigit => "invalid digit found in seed"@,
            SeedLineFault::TooLarge => "seed is greater than 4294967295"@,
        }
    }

    /// What is wrong, in words.
    pub fn message(self) -> (text: &'static str)
        ensures
            text@ == self.description(),
    {
        match self {
            SeedLineFault::Empty => "cannot parse a seed from an empty line",
            SeedLineFault::InvalidDigit => "invalid digit found in seed",
            SeedLineFault::TooLarge => "seed is greater than 4294967295",
        }
    }
}

impl SeedFileError {
    /// The message for this error: the number of the line and what is wrong
    /// with it.
    pub open spec fn description(self) -> Seq<char> {
        "seed file, line "@ + decimal_digits(self.line as nat) + ": "@ + self.fault.description()
    }

    /// The message for this error.
    pub fn message(&self) -> (text: String)
        ensures
            text@ == self.description(),
    {
        let mut text = String::from_str("seed file, line ");
        append_decimal(&mut text, self.line as u64);
        text.append(": ");
        text.append(self.fault.message());
        text
    }
}

/// The longest prefix of `s` that consists of ASCII digits.
pub open spec fn leading_digits(s: Seq<char>) -> Seq<char>
    decreases s.len(),
{
    if s.len() > 0 && is_digit(s[0]) {
        seq![s[0]] + leading_digits(s.skip(1))
    } else {
        Seq::empty()
    }
}

/// The seed that one line of a seed file denotes.
///
/// A seed is written as one or more decimal digits, with an optional `+` in
/// front, and is at most `MAX_SEED`. Nothing else may stand on the line, not
/// even white space. Of a line with several faults the one met first, reading
/// from the left, is reported.
pub open spec fn parse_seed(line: Seq<char>) -> Result<u32, SeedLineFault> {
    if line.len() == 0 {
        Err(SeedLineFault::Empty)
    } else {
        let digits = if line[0] == '+' {
            line.skip(1)
        } else {
            line
        };
        if digits.len() == 0 {
            Err(SeedLineFault::InvalidDigit)
        } else if decimal_value(leading_digits(digits)) > MAX_SEED {
            Err(SeedLineFault::TooLarge)
        } else if leading_digits(digits).len() < digits.len() {
            Err(SeedLineFault::InvalidDigit)
        } else {
            Ok(decimal_value(digits) as u32)
        }
    }
}

/// The seeds that the lines of a seed file denote, or the first line that
/// denotes none.
pub open spec fn parse_seed_lines(lines: Seq<Seq<char>>) -> Result<Seq<u32>, SeedFileError>
    decreases lines.len(),
{
    if lines.len() == 0 {
        Ok(Seq::empty())
    } else {
        match parse_seed_lines(lines.drop_last()) {
            Err(e) => Err(e),
            Ok(seeds) => match parse_seed(lines.last()) {
                Ok(seed) => Ok(seeds.push(seed)),
                Err(fault) => Err(SeedFileError { line: lines.len() as usize, fault }),
            },
        }
    }
}

/// A prefix of digits of `s`, ended by a non-digit or by the end of `s`, is
/// the whole of `leading_digits(s)`.
proof fn lemma_leading_digits(s: Seq<char>, n: int)
    requires
        0 <= n <= s.len(),
        all_digits(s.take(n)),
        n < s.len() ==> !is_digit(s[n]),
    ensures
        leading_digits(s) == s.take(n),
    decreases n,
{
    if n == 0 {
        assert(s.take(0) =~= Seq::<char>::empty());
    } else {
        assert(s.take(n)[0] == s[0]);
        let rest = s.skip(1);
        assert(rest.take(n - 1) =~= s.take(n).skip(1));
        assert forall|i: int| 0 <= i < rest.take(n - 1).len() implies is_digit(
            #[trigger] rest.take(n - 1)[i],
        ) by {
            assert(rest.take(n - 1)[i] == s.take(n)[i + 1]);
        }
        lemma_leading_digits(rest, n - 1);
        assert(s.take(n) =~= seq![s[0]] + rest.take(n - 1));
    }
}

/// A digit string denotes at least what any of its prefixes denotes.
proof fn lemma_decimal_value_grows(s: Seq<char>, n: int)
    requires
        0 <= n <= s.len(),
    ensures
        decimal_value(s.take(n)) <= decimal_value(s),
    decreases s.len(),
{
    if n == s.len() {
        assert(s.take(n) =~= s);
    } else {
        assert(s.drop_last().take(n) =~= s.take(n));
        lemma_decimal_value_grows(s.drop_last(), n);
    }
}

/// Reads the seed that `line` denotes.
pub fn parse_seed_line(line: &str) -> (seed: Result<u32, SeedLineFault>)
    ensures
        seed == parse_seed(line@),
{
    let mut value: u32 = 0;
    let mut any_digit = false;
    let mut signed = false;
    for c in it: line.chars()
        invariant
            it.seq() == line@,
            signed ==> it.index() >= 1 && line@[0] == '+',
            !signed && it.index() >= 1 ==> line@[0] != '+',
            any_digit <==> it.index() > sign_len(signed),
            all_digits(line@.subrange(sign_len(signed), it.index())),
            value == decimal_value(line@.subrange(sign_len(signed), it.index())),
    {
        let ghost at = it.index();
        let ghost start = sign_len(signed);
        let ghost digits = line@.skip(start);
        proof {
            assert(line@.skip(0) =~= line@);
            if at >= start {
                assert(digits.take(at - start) =~= line@.subrange(start, at));
                assert(line@.subrange(start, at + 1).drop_last() =~= line@.subrange(start, at));
                assert(digits.take(at - start + 1) =~= line@.subrange(start, at + 1));
                assert(digits[at - start] == c);
            }
        }
        if !any_digit && !signed && c == '+' {
            signed = true;
            assert(line@.subrange(1, 1) =~= Seq::<char>::empty());
        } else {
            let code = c as u32;
            if code < 48 || code > 57 {
                proof {
                    lemma_leading_digits(digits, at - start);
                }
                return Err(SeedLineFault::InvalidDigit);
            }
            let wide: u64 = (value as u64) * 10 + ((code - 48) as u64);
            assert(all_digits(line@.subrange(start, at + 1))) by {
                assert forall|i: int| 0 <= i < at + 1 - start implies is_digit(
                    #[trigger] line@.subrange(start, at + 1)[i],
                ) by {
                    if i < at - start {
                        assert(line@.subrange(start, at)[i] == line@.subrange(start, at + 1)[i]);
                    }
                }
            }
            if wide > MAX_SEED as u64 {
                proof {
                    let longer = digits.take(at - start + 1);
                    assert(decimal_value(longer) == wide);
                    let n = digit_run_end(digits, at - start + 1);
                    lemma_leading_digits(digits, n);
                    assert(digits.take(n).take(at - start + 1) =~= longer);
                    lemma_decimal_value_grows(digits.take(n), at - start + 1);
                }
                return Err(SeedLineFault::TooLarge);
            }
            value = wide as u32;
            any_digit = true;
        }
    }
    proof {
        let start = sign_len(signed);
        assert(line@.skip(0) =~= line@);
        if line@.len() >= start {
            let digits = line@.skip(start);
            assert(line@.subrange(start, line@.len() as int) =~= digits);
            assert(digits.take(digits.len() as int) =~= digits);
            lemma_leading_digits(digits, digits.len() as int);
        }
    }
    if line.is_empty() {
        Err(SeedLineFault::Empty)
    } else if !any_digit {
        Err(SeedLineFault::InvalidDigit)
    } else {
        Ok(value)
    }
}

/// How many characters the sign takes.
spec fn sign_len(signed: bool) -> int {
    if signed {
        1
    } else {
        0
    }
}

/// The end of the run of digits of `s` that begins with its first `from`
/// characters, all of them digits.
proof fn digit_run_end(s: Seq<char>, from: int) -> (n: int)
    requires
        0 <= from <= s.len(),
        all_digits(s.take(from)),
    ensures
        from <= n <= s.len(),
        all_digits(s.take(n)),
        n < s.len() ==> !is_digit(s[n]),
    decreases s.len() - from,
{
    if from < s.len() && is_digit(s[from]) {
        assert(s.take(from + 1).drop_last() =~= s.take(from));
        assert forall|i: int| 0 <= i < from + 1 implies is_digit(#[trigger] s.take(from + 1)[i]) by {
            if i < from {
                assert(s.take(from)[i] == s.take(from + 1)[i]);
            }
        }
        digit_run_end(s, from + 1)
    } else {
        from
    }
}

/// Every seed can be written down and read back: the decimal numeral of a
/// seed is a line that denotes this seed.
pub proof fn lemma_seed_round_trip(seed: u32)
    ensures
        parse_seed(decimal_digits(seed as nat)) == Ok::<u32, SeedLineFault>(seed),
{
    let line = decimal_digits(seed as nat);
    lemma_decimal_digits_are_digits(seed as nat);
    lemma_decimal_round_trip(seed as nat);
    assert(is_digit(line[0]));
    assert(line.take(line.len() as int) =~= line);
    lemma_leading_digits(line, line.len() as int);
}

/// Reads a seed file: one seed on each line of `contents`.
///
/// Returns the seeds in the order of their lines, or the first line that is
/// not a seed. A file without lines gives an empty list.
pub fn parse_seeds_file(contents: &str) -> (seeds: Result<Option<Vec<u32>>, SeedFileError>)
    ensures
        match parse_seed_lines(lines_of(contents@)) {
            Ok(parsed) => seeds matches Ok(Some(list)) && list@ == parsed,
            Err(e) => seeds == Err::<Option<Vec<u32>>, SeedFileError>(e),
        },
{
    let lines = split_lines(contents);
    let ghost all = lines_of(contents@);
    let mut seeds: Vec<u32> = Vec::new();
    let mut i: usize = 0;
    while i < lines.len()
        invariant
            i <= lines.len(),
            all == lines_of(contents@),
            views(lines@) == all,
            parse_seed_lines(all.take(i as int)) == Ok::<Seq<u32>, SeedFileError>(seeds@),
        decreases lines.len() - i,
    {
        proof {
            assert(all.take(i + 1).drop_last() =~= all.take(i as int));
            assert(all.take(i + 1).last() == lines@[i as int]@);
            lemma_parse_stops_at_first_fault(all, i + 1);
        }
        match parse_seed_line(lines[i].as_str()) {
            Ok(seed) => {
                seeds.push(seed);
            },
            Err(fault) => {
                return Err(SeedFileError { line: i + 1, fault });
            },
        }
        i += 1;
    }
    assert(all.take(i as int) =~= all);
    Ok(Some(seeds))
}

/// Once a prefix of the lines holds a line that is no seed, the whole file
/// fails with the same error.
proof fn lemma_parse_stops_at_first_fault(lines: Seq<Seq<char>>, n: int)
    requires
        0 <= n <= lines.len(),
    ensures
        parse_seed_lines(lines.take(n)) is Err ==> parse_seed_lines(lines) == parse_seed_lines(
            lines.take(n),
        ),
    decreases lines.len(),
{
    if n == lines.len() {
        assert(lines.take(n) =~= lines);
    } else {
        assert(lines.drop_last().take(n) =~= lines.take(n));
        lemma_parse_stops_at_first_fault(lines.drop_last(), n);
    }
}

/// A seed file is read line by line. Where every line is a seed, the seeds
/// come out in the order of the lines. Otherwise the error names the first
/// line that is no seed, and its fault.
pub proof fn lemma_seed_lines_are_read_in_order(lines: Seq<Seq<char>>)
    requires
        lines.len() <= usize::MAX,
    ensures
        match parse_seed_lines(lines) {
            Ok(seeds) => {
                &&& seeds.len() == lines.len()
                &&& forall|i: int|
                    0 <= i < lines.len() ==> parse_seed(#[trigger] lines[i]) == Ok::<
                        u32,
                        SeedLineFault,
                    >(seeds[i])
            },
            Err(e) => {
                &&& 1 <= e.line <= lines.len()
                &&& parse_seed(lines[e.line - 1]) == Err::<u32, SeedLineFault>(e.fault)
                &&& forall|i: int| 0 <= i < e.line - 1 ==> parse_seed(#[trigger] lines[i]) is Ok
            },
        },
    decreases lines.len(),
{
    if lines.len() > 0 {
        let front = lines.drop_last();
        lemma_seed_lines_are_read_in_order(front);
        assert forall|i: int| 0 <= i < front.len() implies front[i] == lines[i] by {}
        match parse_seed_lines(front) {
            Ok(seeds) => {
                match parse_seed(lines.last()) {
                    Ok(seed) => {
                        let all = seeds.push(seed);
                        assert forall|i: int| 0 <= i < lines.len() implies parse_seed(
                            #[trigger] lines[i],
                        ) == Ok::<u32, SeedLineFault>(all[i]) by {
                            if i < front.len() {
                                assert(front[i] == lines[i]);
                            }
                        }
                    },
                    Err(fault) => {
                        assert forall|i: int| 0 <= i < lines.len() - 1 implies parse_seed(
                            #[trigger] lines[i],
                        ) is Ok by {
                            assert(front[i] == lines[i]);
                        }
                    },
                }
            },
            Err(e) => {
                assert(front[e.line - 1] == lines[e.line - 1]);
                assert forall|i: int| 0 <= i < e.line - 1 implies parse_seed(
                    #[trigger] lines[i],
                ) is Ok by {
                    assert(front[i] == lines[i]);
                }
            },
        }
    }
}

/// What a seed file contributes to a run: nothing where no file is given.
pub open spec fn file_seeds(contents: Option<Seq<char>>) -> Result<Option<Seq<u32>>, SeedFileError> {
    match contents {
        None => Ok(None),
        Some(text) => match parse_seed_lines(lines_of(text)) {
            Ok(seeds) => Ok(Some(seeds)),
            Err(e) => Err(e),
        },
    }
}

/// The seeds given by the user followed by those of the seed file; no list
/// at all where neither is given.
pub open spec fn merged_seeds(user: Option<Seq<u32>>, file: Option<Seq<u32>>) -> Option<Seq<u32>> {
    match (user, file) {
        (Some(u), Some(f)) => Some(u + f),
        (Some(u), None) => Some(u),
        (None, f) => f,
    }
}

/// The view of an optional list of seeds.
pub open spec fn seeds_view(seeds: Option<Vec<u32>>) -> Option<Seq<u32>> {
    match seeds {
        Some(list) => Some(list@),
        None => None,
    }
}

/// The view of the optional contents of a file.
pub open spec fn contents_view(contents: Option<String>) -> Option<Seq<char>> {
    match contents {
        Some(text) => Some(text@),
        None => None,
    }
}

/// Merges the seeds given by the user with those of a seed file.
///
/// `file_contents` holds what was read from the seed file, if one was named.
/// The seeds of the file follow those of the user. A file that holds a line
/// that is no seed fails the merge, whatever the user gave.
pub fn merge_user_defined_seeds(
    seeds: Option<Vec<u32>>,
    file_contents: &Option<String>,
) -> (merged: Result<Option<Vec<u32>>, SeedFileError>)
    ensures
        match file_seeds(contents_view(*file_contents)) {
            Ok(file) => merged matches Ok(list) && seeds_view(list) == merged_seeds(
                seeds_view(seeds),
                file,
            ),
            Err(e) => merged == Err::<Option<Vec<u32>>, SeedFileError>(e),
        },
{
    let from_file = match file_contents {
        Some(text) => match parse_seeds_file(text.as_str()) {
            Ok(parsed) => parsed,
            Err(e) => {
                return Err(e);
            },
        },
        None => None,
    };
    let merged = match seeds {
        Some(mut list) => {
            if let Some(mut more) = from_file {
                list.append(&mut more);
            }
            Some(list)
        },
        None => from_file,
    };
    Ok(merged)
}

// ---------------------------------------------------------------------------
// The supply
// ---------------------------------------------------------------------------

/// The generator of the operating system's entropy that `rand` keeps for
/// each thread. Nothing is known of its state.
#[verifier::external_type_specification]
#[verifier::external_body]
pub struct ExThreadRng(ThreadRng);

/// `rand::rng` hands out the calling thread's generator. Nothing is claimed
/// of it. Where the operating system gives the thread no entropy to start
/// from, `rand` panics instead of returning.
pub assume_specification[ rand::rng ]() -> (generator: ThreadRng);

/// Draws a number between `low` and `high`, both included.
///
/// Trusted: calls `Rng::random_range` on the inclusive range, which `rand`
/// documents as returning a value of the range and as panicking on an empty
/// one only. Which value comes is not determined.
#[verifier::external_body]
fn random_between(generator: &mut ThreadRng, low: u32, high: u32) -> (value: u32)
    requires
        low <= high,
    ensures
        low <= value <= high,
{
    generator.random_range(low..=high)
}

/// What a seed supply still has to give.
pub struct SeedSupply {
    /// The listed seeds not yet drawn; the last one is drawn first. `None`
    /// for the random stream.
    pub pending: Option<Seq<u32>>,
    /// How many more seeds may be drawn at most; `None` where nothing limits
    /// their number.
    pub cap: Option<nat>,
}

impl SeedSupply {
    /// A supply of the listed seeds, without a cap.
    pub open spec fn list(seeds: Seq<u32>) -> SeedSupply {
        SeedSupply { pending: Some(seeds), cap: None }
    }

    /// The random stream, without a cap.
    pub open spec fn random() -> SeedSupply {
        SeedSupply { pending: None, cap: None }
    }

    /// The same supply, cut to `n` more seeds at most.
    pub open spec fn capped(self, n: nat) -> SeedSupply {
        SeedSupply {
            pending: self.pending,
            cap: match self.cap {
                Some(c) if c <= n => Some(c),
                _ => Some(n),
            },
        }
    }

    /// Whether another seed can be drawn.
    pub open spec fn has_next(self) -> bool {
        &&& self.cap != Some(0nat)
        &&& self.pending matches Some(seeds) ==> seeds.len() > 0
    }

    /// Whether `seed` may be the next seed drawn.
    pub open spec fn yields(self, seed: u32) -> bool {
        &&& self.has_next()
        &&& match self.pending {
            Some(seeds) => seed == seeds.last(),
            None => seed <= MAX_SEED,
        }
    }

    /// The supply after one seed was drawn.
    pub open spec fn after_next(self) -> SeedSupply
        recommends
            self.has_next(),
    {
        SeedSupply {
            pending: match self.pending {
                Some(seeds) => Some(seeds.drop_last()),
                None => None,
            },
            cap: match self.cap {
                Some(c) => Some((c - 1) as nat),
                None => None,
            },
        }
    }

    /// The supply after `count` draws, or after as many as it allows.
    pub open spec fn after_draws(self, count: nat) -> SeedSupply
        decreases count,
    {
        if count == 0 || !self.has_next() {
            self
        } else {
            self.after_next().after_draws((count - 1) as nat)
        }
    }

    /// How many seeds are still to come; `None` where the supply never ends.
    pub open spec fn remaining(self) -> Option<nat> {
        match (self.pending, self.cap) {
            (Some(seeds), Some(c)) => Some(if c <= seeds.len() { c } else { seeds.len() }),
            (Some(seeds), None) => Some(seeds.len()),
            (None, cap) => cap,
        }
    }
}

/// The source of the seeds of a run: a list of seeds, drawn from its end
/// backwards, or an endless stream of random seeds.
pub struct SeedIterator {
    seeds: Option<Vec<u32>>,
    rng: ThreadRng,
    limit: Option<usize>,
}

impl View for SeedIterator {
    type V = SeedSupply;

    closed spec fn view(&self) -> SeedSupply {
        SeedSupply {
            pending: seeds_view(self.seeds),
            cap: match self.limit {
                Some(n) => Some(n as nat),
                None => None,
            },
        }
    }
}

impl SeedIterator {
    /// A supply of the given seeds, or of random seeds where none are given.
    pub fn new(seeds: Option<Vec<u32>>) -> (supply: Self)
        ensures
            supply@ == (SeedSupply { pending: seeds_view(seeds), cap: None }),
    {
        let rng = rand::rng();
        Self { seeds, rng, limit: None }
    }

    /// The same supply, cut to `n` more seeds at most.
    pub fn take(self, n: usize) -> (supply: Self)
        ensures
            supply@ == self@.capped(n as nat),
    {
        let limit = match self.limit {
            Some(c) if c <= n => c,
            _ => n,
        };
        Self { seeds: self.seeds, rng: self.rng, limit: Some(limit) }
    }

    /// Draws the next seed, or reports that the supply has ended.
    ///
    /// A list gives its last seed first. The random stream gives a seed
    /// between 0 and `MAX_SEED` and never ends unless it was capped.
    pub fn next(&mut self) -> (seed: Option<u32>)
        ensures
            old(self)@.has_next() ==> (seed matches Some(s) && old(self)@.yields(s)),
            old(self)@.has_next() ==> final(self)@ == old(self)@.after_next(),
            !old(self)@.has_next() ==> seed is None && final(self)@ == old(self)@,
    {
        if let Some(left) = self.limit {
            if left == 0 {
                return None;
            }
        }
        let seed = match &mut self.seeds {
            Some(list) => list.pop(),
            None => Some(random_between(&mut self.rng, 0, MAX_SEED)),
        };
        if seed.is_some() {
            if let Some(left) = self.limit {
                self.limit = Some(left - 1);
            }
        }
        seed
    }

    /// How many seeds are still to come; `None` where the supply never ends.
    pub fn remaining(&self) -> (count: Option<usize>)
        ensures
            self@.remaining() == match count {
                Some(n) => Some(n as nat),
                None => None,
            },
    {
        match (&self.seeds, self.limit) {
            (Some(list), Some(c)) => Some(if c <= list.len() { c } else { list.len() }),
            (Some(list), None) => Some(list.len()),
            (None, cap) => cap,
        }
    }
}

/// A list of seeds is drawn from its end backwards and then ends: after
/// `count` draws the supply of `s1, ..., sn` holds `s1, ..., s(n - count)`, so
/// that the draw that follows gives `s(n - count)` and nothing else, and the
/// draw after the `n`-th gives nothing.
pub proof fn lemma_list_is_drawn_backwards(seeds: Seq<u32>, count: nat)
    ensures
        count <= seeds.len() ==> SeedSupply::list(seeds).after_draws(count) == SeedSupply::list(
            seeds.take(seeds.len() - count),
        ),
        count < seeds.len() ==> forall|s: u32|
            SeedSupply::list(seeds).after_draws(count).yields(s) <==> s == seeds[seeds.len() - 1
                - count],
        count >= seeds.len() ==> !SeedSupply::list(seeds).after_draws(count).has_next(),
    decreases count,
{
    let supply = SeedSupply::list(seeds);
    if count == 0 {
        assert(seeds.take(seeds.len() as int) =~= seeds);
    } else if seeds.len() == 0 {
    } else {
        lemma_list_is_drawn_backwards(seeds.drop_last(), (count - 1) as nat);
        assert(supply.after_next() == SeedSupply::list(seeds.drop_last()));
        if count <= seeds.len() {
            assert(seeds.drop_last().take(seeds.len() - count) =~= seeds.take(
                seeds.len() - count,
            ));
        }
    }
}

/// The random stream never ends: whatever was drawn, another seed can be
/// drawn, and each seed drawn is at most `MAX_SEED`.
pub proof fn lemma_random_stream_never_ends(count: nat)
    ensures
        SeedSupply::random().after_draws(count) == SeedSupply::random(),
        SeedSupply::random().after_draws(count).has_next(),
        forall|s: u32| SeedSupply::random().after_draws(count).yields(s) ==> 0 <= s <= MAX_SEED,
    decreases count,
{
    if count > 0 {
        lemma_random_stream_never_ends((count - 1) as nat);
        assert(SeedSupply::random().after_next() == SeedSupply::random());
    }
}

} // verus!
