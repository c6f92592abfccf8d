//! Build-time configuration of the runtime: the version of the runtime
//! source tree to compile and the configure arguments to hand it.
//!
//! The compilation itself — cloning the tagged tree, configuring and
//! compiling it — is ordinary build tooling outside this crate.  What is
//! decided here is the data that drives it: the version triple, its
//! rendered tag and version strings, and the cache key under which build
//! parameters are remembered.

use vstd::prelude::*;

use vstd::slice::{slice_index_get, slice_subrange};
use vstd::string::StringExecFns;

verus! {

/// The decimal character for one digit value.
pub open spec fn digit_char(d: int) -> char {
    if d == 0 {
        '0'
    } else if d == 1 {
        '1'
    } else if d == 2 {
        '2'
    } else if d == 3 {
        '3'
    } else if d == 4 {
        '4'
    } else if d == 5 {
        '5'
    } else if d == 6 {
        '6'
    } else if d == 7 {
        '7'
    } else if d == 8 {
        '8'
    } else {
        '9'
    }
}

/// The decimal rendering of a nonnegative number, most significant digit
/// first, with no leading zeros except for the number zero itself.
pub open spec fn dec_chars(n: int) -> Seq<char>
    recommends
        n >= 0,
    decreases n,
{
    if n < 10 {
        seq![digit_char(n)]
    } else {
        dec_chars(n / 10).push(digit_char(n % 10))
    }
}

/// The decimal rendering of a signed number: a minus sign before the
/// magnitude when the number is negative.
pub open spec fn int_chars(n: int) -> Seq<char> {
    if n < 0 {
        seq!['-'] + dec_chars(-n)
    } else {
        dec_chars(n)
    }
}

/// The one-character string for a digit value.
fn digit_str(d: usize) -> (s: &'static str)
    requires
        d < 10,
    ensures
        s@ == seq![digit_char(d as int)],
{
    proof {
        reveal_strlit("0");
        reveal_strlit("1");
        reveal_strlit("2");
        reveal_strlit("3");
        reveal_strlit("4");
        reveal_strlit("5");
        reveal_strlit("6");
        reveal_strlit("7");
        reveal_strlit("8");
        reveal_strlit("9");
    }
    let s = if d == 0 {
        "0"
    } else if d == 1 {
        "1"
    } else if d == 2 {
        "2"
    } else if d == 3 {
        "3"
    } else if d == 4 {
        "4"
    } else if d == 5 {
        "5"
    } else if d == 6 {
        "6"
    } else if d == 7 {
        "7"
    } else if d == 8 {
        "8"
    } else {
        "9"
    };
    proof {
        assert(s@ =~= seq![digit_char(d as int)]);
    }
    s
}

/// Appends the decimal rendering of a nonnegative number.
fn append_dec(s: &mut String, n: usize)
    ensures
        final(s)@ == old(s)@ + dec_chars(n as int),
    decreases n,
{
    if n >= 10 {
        append_dec(s, n / 10);
        s.append(digit_str(n % 10));
        proof {
            assert(old(s)@ + dec_chars((n / 10) as int) + seq![digit_char((n % 10) as int)] =~= old(
                s,
            )@ + dec_chars(n as int));
        }
    } else {
        s.append(digit_str(n));
        proof {
            assert(old(s)@ + seq![digit_char(n as int)] =~= old(s)@ + dec_chars(n as int));
        }
    }
}

/// Appends the decimal rendering of a signed number.
fn append_int(s: &mut String, n: isize)
    ensures
        final(s)@ == old(s)@ + int_chars(n as int),
{
    if n < 0 {
        proof {
            reveal_strlit("-");
        }
        s.append("-");
        let m: usize = ((-(n + 1)) as usize) + 1;
        append_dec(s, m);
        proof {
            assert("-"@ =~= seq!['-']);
            assert(old(s)@ + seq!['-'] + dec_chars(m as int) =~= old(s)@ + int_chars(n as int));
        }
    } else {
        append_dec(s, n as usize);
    }
}

/// A version of the runtime's source tree, as its three-part version
/// number.
#[derive(Copy, Clone, Debug, PartialEq, Eq, Structural)]
pub struct Version {
    pub major: isize,
    pub minor: isize,
    pub patch: isize,
}

/// The rendered form of a version: the three parts in decimal, separated
/// by dots.
pub open spec fn version_chars(v: Version) -> Seq<char> {
    int_chars(v.major as int) + seq!['.'] + int_chars(v.minor as int) + seq!['.'] + int_chars(
        v.patch as int,
    )
}

impl Version {
    /// A version from its three parts.
    pub fn new(major: isize, minor: isize, patch: isize) -> (v: Version)
        ensures
            v.major == major,
            v.minor == minor,
            v.patch == patch,
    {
        Version { major, minor, patch }
    }

    /// The dotted decimal rendering of this version.
    pub fn to_string(&self) -> (s: String)
        ensures
            s@ == version_chars(*self),
    {
        proof {
            reveal_strlit(".");
        }
        let mut s = String::new();
        append_int(&mut s, self.major);
        s.append(".");
        append_int(&mut s, self.minor);
        s.append(".");
        append_int(&mut s, self.patch);
        proof {
            assert("."@ =~= seq!['.']);
            assert(s@ =~= version_chars(*self));
        }
        s
    }

    /// The source-tree tag that names this version in the runtime's
    /// distribution.
    pub fn tag(&self) -> (s: String)
        ensures
            s@ == "php-"@ + version_chars(*self),
    {
        proof {
            reveal_strlit("php-");
        }
        let mut s = String::from_str("php-");
        append_int(&mut s, self.major);
        proof {
            reveal_strlit(".");
        }
        s.append(".");
        append_int(&mut s, self.minor);
        s.append(".");
        append_int(&mut s, self.patch);
        proof {
            assert("."@ =~= seq!['.']);
            assert(s@ =~= "php-"@ + version_chars(*self));
        }
        s
    }
}

/// The byte is a decimal digit.
pub open spec fn is_dec_digit(b: u8) -> bool {
    48 <= b <= 57
}

/// Every byte of the sequence is a decimal digit.
pub open spec fn all_digits(s: Seq<u8>) -> bool {
    forall|i: int| 0 <= i < s.len() ==> is_dec_digit(#[trigger] s[i])
}

/// The number a sequence of digit bytes denotes, read in base ten.
pub open spec fn dec_value(s: Seq<u8>) -> int
    recommends
        all_digits(s),
    decreases s.len(),
{
    if s.len() == 0 {
        0
    } else {
        dec_value(s.drop_last()) * 10 + (s.last() - 48)
    }
}

/// The bytes denote a signed decimal integer: an optional minus sign, then
/// at least one digit and nothing else.
pub open spec fn valid_int_bytes(s: Seq<u8>) -> bool {
    if s.len() > 0 && s[0] == 45 {
        s.len() > 1 && all_digits(s.skip(1))
    } else {
        s.len() > 0 && all_digits(s)
    }
}

/// The signed number the bytes denote.
pub open spec fn int_bytes_value(s: Seq<u8>) -> int
    recommends
        valid_int_bytes(s),
{
    if s.len() > 0 && s[0] == 45 {
        -dec_value(s.skip(1))
    } else {
        dec_value(s)
    }
}

/// The number lies in the machine's signed word range.
pub open spec fn in_isize_range(n: int) -> bool {
    isize::MIN <= n <= isize::MAX
}

/// A digit sequence denotes a nonnegative number.
proof fn lemma_dec_value_nonneg(s: Seq<u8>)
    requires
        all_digits(s),
    ensures
        dec_value(s) >= 0,
    decreases s.len(),
{
    if s.len() > 0 {
        assert(all_digits(s.drop_last())) by {
            assert(forall|i: int|
                0 <= i < s.drop_last().len() ==> #[trigger] s.drop_last()[i] == s[i]);
        }
        lemma_dec_value_nonneg(s.drop_last());
    }
}

/// Dropping trailing digits never increases the denoted number.
proof fn lemma_dec_value_prefix(s: Seq<u8>, i: int)
    requires
        all_digits(s),
        0 <= i <= s.len(),
    ensures
        dec_value(s.take(i)) <= dec_value(s),
    decreases s.len() - i,
{
    if i < s.len() {
        lemma_dec_value_prefix(s, i + 1);
        assert(s.take(i + 1).drop_last() =~= s.take(i));
        assert(s.take(i + 1).last() == s[i]);
        assert(all_digits(s.take(i))) by {
            assert(forall|k: int| 0 <= k < i ==> #[trigger] s.take(i)[k] == s[k]);
        }
        lemma_dec_value_nonneg(s.take(i));
        assert(dec_value(s.take(i)) <= dec_value(s.take(i + 1)));
    } else {
        assert(s.take(i) =~= s);
    }
}

/// Parses a signed decimal integer: the exact inverse of the denotation
/// above, succeeding exactly on well-formed input whose value fits the
/// machine's signed word.
pub fn parse_isize(bytes: &[u8]) -> (r: Option<isize>)
    ensures
        r is Some <==> valid_int_bytes(bytes@) && in_isize_range(int_bytes_value(bytes@)),
        r matches Some(v) ==> v as int == int_bytes_value(bytes@),
{
    let len = bytes.len();
    if len == 0 {
        return None;
    }
    let negative = *slice_index_get(bytes, 0) == 45;
    let start: usize = if negative {
        1
    } else {
        0
    };
    if start >= len {
        return None;
    }
    let ghost ds = bytes@.skip(start as int);
    proof {
        if !negative {
            assert(ds =~= bytes@);
        }
        assert(valid_int_bytes(bytes@) ==> all_digits(ds));
        assert(all_digits(ds) ==> valid_int_bytes(bytes@));
    }
    // Accumulate the negated value: the negative range of the machine word
    // is one wider than the positive, so the magnitude of the minimum
    // value stays representable.
    let mut acc: isize = 0;
    let mut i: usize = start;
    while i < len
        invariant
            start <= i <= len,
            len == bytes@.len(),
            start < len,
            start == 0 || start == 1,
            negative <==> bytes@[0] == 45,
            negative <==> start == 1,
            ds == bytes@.skip(start as int),
            ds.len() == len - start,
            valid_int_bytes(bytes@) <==> all_digits(ds),
            all_digits(ds.take(i - start)),
            acc <= 0,
            acc as int == -dec_value(ds.take(i - start)),
        decreases len - i,
    {
        let b = *slice_index_get(bytes, i);
        proof {
            assert(ds[i - start] == b);
        }
        if b < 48 || b > 57 {
            proof {
                assert(!all_digits(ds));
            }
            return None;
        }
        let digit = (b - 48) as isize;
        proof {
            assert(ds.take(i + 1 - start).drop_last() =~= ds.take(i - start));
            assert(ds.take(i + 1 - start).last() == ds[i - start]);
            assert(all_digits(ds.take(i + 1 - start))) by {
                assert(forall|k: int|
                    0 <= k < i + 1 - start ==> #[trigger] ds.take(i + 1 - start)[k] == ds.take(
                        i - start,
                    ).push(b)[k]);
            }
            assert(dec_value(ds.take(i + 1 - start)) == dec_value(ds.take(i - start)) * 10 + (b
                - 48));
        }
        let step = match acc.checked_mul(10) {
            Some(t) => t.checked_sub(digit),
            None => None,
        };
        match step {
            Some(next) => {
                acc = next;
            },
            None => {
                // The digits read so far already denote more than the
                // word can hold, and further digits only grow the value,
                // so well-formed input from here on is out of range.
                proof {
                    assert((acc as int) * 10 - (digit as int) < isize::MIN);
                    assert(dec_value(ds.take(i + 1 - start)) > -(isize::MIN as int));
                    if all_digits(ds) {
                        lemma_dec_value_prefix(ds, i + 1 - start);
                        assert(dec_value(ds) > -(isize::MIN as int));
                        if negative {
                            assert(int_bytes_value(bytes@) == -dec_value(ds));
                            assert(int_bytes_value(bytes@) < isize::MIN);
                        } else {
                            assert(ds =~= bytes@);
                            assert(int_bytes_value(bytes@) == dec_value(ds));
                            assert(-(isize::MIN as int) == (isize::MAX as int) + 1);
                            assert(int_bytes_value(bytes@) > isize::MAX);
                        }
                        assert(!in_isize_range(int_bytes_value(bytes@)));
                    }
                }
                return None;
            },
        }
        i = i + 1;
    }
    proof {
        assert(ds.take(len - start) =~= ds);
        assert(acc as int == -dec_value(ds));
        lemma_dec_value_nonneg(ds);
    }
    if negative {
        Some(acc)
    } else {
        if acc == isize::MIN {
            proof {
                assert(int_bytes_value(bytes@) == -(isize::MIN as int));
                assert(!in_isize_range(int_bytes_value(bytes@)));
            }
            return None;
        }
        Some(-acc)
    }
}

/// The index of the first dot in the sequence, or a negative answer when
/// there is none.
pub open spec fn first_dot(s: Seq<u8>) -> int
    decreases s.len(),
{
    if s.len() == 0 {
        -1
    } else if s[0] == 46 {
        0
    } else if first_dot(s.skip(1)) < 0 {
        -1
    } else {
        first_dot(s.skip(1)) + 1
    }
}

/// A dot with no dot before it is the first dot.
proof fn lemma_first_dot_at(s: Seq<u8>, i: int)
    requires
        0 <= i < s.len(),
        s[i] == 46,
        forall|k: int| 0 <= k < i ==> s[k] != 46,
    ensures
        first_dot(s) == i,
    decreases i,
{
    if i > 0 {
        assert(s[0] != 46);
        assert(s.skip(1)[i - 1] == s[i]);
        assert(forall|k: int| 0 <= k < i - 1 ==> #[trigger] s.skip(1)[k] == s[k + 1]);
        lemma_first_dot_at(s.skip(1), i - 1);
    }
}

/// A sequence without dots has no first dot.
proof fn lemma_first_dot_none(s: Seq<u8>)
    requires
        forall|k: int| 0 <= k < s.len() ==> s[k] != 46,
    ensures
        first_dot(s) == -1,
    decreases s.len(),
{
    if s.len() > 0 {
        assert(forall|k: int| 0 <= k < s.skip(1).len() ==> #[trigger] s.skip(1)[k] == s[k + 1]);
        lemma_first_dot_none(s.skip(1));
    }
}

/// The bytes before the first dot.
pub open spec fn version_part1(s: Seq<u8>) -> Seq<u8> {
    s.take(first_dot(s))
}

/// The bytes after the first dot.
pub open spec fn version_rest(s: Seq<u8>) -> Seq<u8> {
    s.skip(first_dot(s) + 1)
}

/// The bytes between the first and the second dot.
pub open spec fn version_part2(s: Seq<u8>) -> Seq<u8> {
    version_rest(s).take(first_dot(version_rest(s)))
}

/// The bytes after the second dot.
pub open spec fn version_part3(s: Seq<u8>) -> Seq<u8> {
    version_rest(s).skip(first_dot(version_rest(s)) + 1)
}

/// The bytes are a version: exactly three dot-separated parts, each a
/// signed decimal integer.
pub open spec fn version_bytes_valid(s: Seq<u8>) -> bool {
    &&& first_dot(s) >= 0
    &&& first_dot(version_rest(s)) >= 0
    &&& first_dot(version_part3(s)) == -1
    &&& valid_int_bytes(version_part1(s))
    &&& valid_int_bytes(version_part2(s))
    &&& valid_int_bytes(version_part3(s))
}

/// All three parts denote numbers the machine word can hold.
pub open spec fn version_values_in_range(s: Seq<u8>) -> bool {
    &&& in_isize_range(int_bytes_value(version_part1(s)))
    &&& in_isize_range(int_bytes_value(version_part2(s)))
    &&& in_isize_range(int_bytes_value(version_part3(s)))
}

/// The first dot at or after the given position.
fn find_dot(bytes: &[u8], from: usize) -> (r: Option<usize>)
    requires
        from <= bytes@.len(),
    ensures
        r matches Some(i) ==> from <= i < bytes@.len() && bytes@[i as int] == 46 && (forall|k: int|
            from as int <= k < i as int ==> bytes@[k] != 46),
        r is None ==> forall|k: int| from as int <= k < bytes@.len() ==> bytes@[k] != 46,
{
    let len = bytes.len();
    let mut i: usize = from;
    while i < len
        invariant
            from <= i <= len,
            len == bytes@.len(),
            forall|k: int| from as int <= k < i as int ==> bytes@[k] != 46,
        decreases len - i,
    {
        if *slice_index_get(bytes, i) == 46 {
            return Some(i);
        }
        i = i + 1;
    }
    None
}

impl Version {
    /// Parses a dotted version: exactly three dot-separated signed decimal
    /// parts, succeeding exactly on well-formed input whose parts fit the
    /// machine's signed word, and reading the three parts in order.
    pub fn parse(bytes: &[u8]) -> (r: Option<Version>)
        ensures
            r is Some <==> version_bytes_valid(bytes@) && version_values_in_range(bytes@),
            r matches Some(v) ==> v.major as int == int_bytes_value(version_part1(bytes@))
                && v.minor as int == int_bytes_value(version_part2(bytes@)) && v.patch as int
                == int_bytes_value(version_part3(bytes@)),
    {
        let len = bytes.len();
        let first = match find_dot(bytes, 0) {
            Some(i) => i,
            None => {
                proof {
                    lemma_first_dot_none(bytes@);
                }
                return None;
            },
        };
        proof {
            lemma_first_dot_at(bytes@, first as int);
        }
        let ghost rest = version_rest(bytes@);
        proof {
            assert(rest =~= bytes@.skip(first + 1));
            assert(forall|m: int| 0 <= m < rest.len() ==> rest[m] == bytes@[first + 1 + m]);
        }
        let second = match find_dot(bytes, first + 1) {
            Some(j) => j,
            None => {
                proof {
                    lemma_first_dot_none(rest);
                }
                return None;
            },
        };
        proof {
            assert(rest[second - first - 1] == bytes@[second as int]);
            lemma_first_dot_at(rest, second - first - 1);
        }
        let ghost part3 = version_part3(bytes@);
        proof {
            assert(part3 =~= rest.skip(second - first));
            assert(forall|m: int| 0 <= m < part3.len() ==> part3[m] == bytes@[second + 1 + m]);
        }
        match find_dot(bytes, second + 1) {
            Some(k) => {
                proof {
                    assert(part3[k - second - 1] == bytes@[k as int]);
                    lemma_first_dot_at(part3, k - second - 1);
                }
                return None;
            },
            None => {
                proof {
                    lemma_first_dot_none(part3);
                }
            },
        }
        let p1 = slice_subrange(bytes, 0, first);
        let p2 = slice_subrange(bytes, first + 1, second);
        let p3 = slice_subrange(bytes, second + 1, len);
        proof {
            assert(p1@ =~= version_part1(bytes@));
            assert(p2@ =~= version_part2(bytes@));
            assert(p3@ =~= part3);
        }
        let major = match parse_isize(p1) {
            Some(v) => v,
            None => {
                return None;
            },
        };
        let minor = match parse_isize(p2) {
            Some(v) => v,
            None => {
                return None;
            },
        };
        let patch = match parse_isize(p3) {
            Some(v) => v,
            None => {
                return None;
            },
        };
        Some(Version { major, minor, patch })
    }
}

/// The arguments joined with commas, as the cache key writes them.
pub open spec fn join_comma(parts: Seq<Seq<char>>) -> Seq<char>
    decreases parts.len(),
{
    if parts.len() == 0 {
        Seq::empty()
    } else if parts.len() == 1 {
        parts[0]
    } else {
        parts[0] + seq![','] + join_comma(parts.skip(1))
    }
}

/// Appends the comma-joined arguments from the given position on.
fn append_join(s: &mut String, args: &Vec<String>, from: usize)
    requires
        from <= args@.len(),
    ensures
        final(s)@ == old(s)@ + join_comma(args@.map_values(|a: String| a@).skip(from as int)),
    decreases args@.len() - from,
{
    let ghost parts = args@.map_values(|a: String| a@);
    if from < args.len() {
        s.append(args[from].as_str());
        if from + 1 < args.len() {
            proof {
                reveal_strlit(",");
            }
            s.append(",");
            append_join(s, args, from + 1);
            proof {
                assert(","@ =~= seq![',']);
                assert(parts.skip(from as int).skip(1) =~= parts.skip(from as int + 1));
                assert(old(s)@ + parts[from as int] + seq![','] + join_comma(
                    parts.skip(from as int + 1),
                ) =~= old(s)@ + join_comma(parts.skip(from as int)));
            }
        } else {
            proof {
                assert(parts.skip(from as int) =~= seq![parts[from as int]]);
                assert(old(s)@ + parts[from as int] =~= old(s)@ + join_comma(
                    parts.skip(from as int),
                ));
            }
        }
    } else {
        proof {
            assert(parts.skip(from as int) =~= Seq::<Seq<char>>::empty());
        }
    }
}

/// Configuration of one build of the runtime source tree: the version to
/// fetch and the configure arguments to hand it.  The compile itself is
/// ordinary build tooling outside this crate; the builder decides only
/// what it runs with.
#[derive(Debug)]
pub struct Builder {
    pub version: Version,
    pub arguments: Vec<String>,
}

impl Default for Builder {
    /// The stock configuration: the version the embedding is developed
    /// against, with everything optional disabled.
    fn default() -> (b: Builder)
        ensures
            b.version == (Version { major: 8, minor: 2, patch: 4 }),
            b.arguments@.len() == 2,
            b.arguments@[0]@ == "--disable-all"@,
            b.arguments@[1]@ == "--disable-cgi"@,
    {
        let mut arguments: Vec<String> = Vec::new();
        arguments.push(String::from_str("--disable-all"));
        arguments.push(String::from_str("--disable-cgi"));
        Builder { version: Version { major: 8, minor: 2, patch: 4 }, arguments }
    }
}

impl Builder {
    /// The stock configuration, as `Default` builds it.
    pub fn new() -> (b: Builder)
        ensures
            b.version == (Version { major: 8, minor: 2, patch: 4 }),
            b.arguments@.len() == 2,
            b.arguments@[0]@ == "--disable-all"@,
            b.arguments@[1]@ == "--disable-cgi"@,
    {
        Builder::default()
    }

    /// The same configuration for another version.
    pub fn with_version(self, version: Version) -> (b: Builder)
        ensures
            b.version == version,
            b.arguments == self.arguments,
    {
        Builder { version, arguments: self.arguments }
    }

    /// The same configuration with the argument list emptied.
    pub fn without_default_arguments(self) -> (b: Builder)
        ensures
            b.version == self.version,
            b.arguments@.len() == 0,
    {
        Builder { version: self.version, arguments: Vec::new() }
    }

    /// The same configuration with one more argument.
    pub fn with_argument(self, argument: String) -> (b: Builder)
        ensures
            b.version == self.version,
            b.arguments@ == self.arguments@.push(argument),
    {
        let mut arguments = self.arguments;
        arguments.push(argument);
        Builder { version: self.version, arguments }
    }

    /// The same configuration with further arguments appended in order.
    pub fn with_arguments(self, arguments: Vec<String>) -> (b: Builder)
        ensures
            b.version == self.version,
            b.arguments@ == self.arguments@ + arguments@,
    {
        let mut all = self.arguments;
        let mut more = arguments;
        all.append(&mut more);
        Builder { version: self.version, arguments: all }
    }

    /// The key under which this configuration's build products are
    /// remembered: the version and the arguments, rendered canonically, so
    /// equal configurations share one build.
    pub fn cache_key(&self) -> (s: String)
        ensures
            s@ == "version="@ + version_chars(self.version) + ";arguments="@ + join_comma(
                self.arguments@.map_values(|a: String| a@),
            ),
    {
        proof {
            reveal_strlit("version=");
            reveal_strlit(";arguments=");
        }
        let mut s = String::from_str("version=");
        let vs = self.version.to_string();
        s.append(vs.as_str());
        s.append(";arguments=");
        append_join(&mut s, &self.arguments, 0);
        proof {
            assert(self.arguments@.map_values(|a: String| a@).skip(0) =~= self.arguments@
                .map_values(|a: String| a@));
            assert(s@ =~= "version="@ + version_chars(self.version) + ";arguments="@ + join_comma(
                self.arguments@.map_values(|a: String| a@),
            ));
        }
        s
    }
}

/// A stock builder, ready to be adjusted.
pub fn builder() -> (b: Builder)
    ensures
        b.version == (Version { major: 8, minor: 2, patch: 4 }),
        b.arguments@.len() == 2,
        b.arguments@[0]@ == "--disable-all"@,
        b.arguments@[1]@ == "--disable-cgi"@,
{
    Builder::new()
}

} // verus!
