//! The log-collection client's computations: reading the last stream
//! timestamp out of a query response, deciding where the next poll
//! starts, and extracting the log lines. The HTTP side stays outside;
//! these functions work on the decoded response alone.

use vstd::prelude::*;

verus! {

/// Sort order of fetched logs.
#[derive(Clone, Copy, Debug, PartialEq, Eq, Structural)]
pub enum LogDirection {
    /// Oldest first.
    Forward,
}

impl LogDirection {
    /// The word the query parameter carries.
    pub fn as_string(&self) -> (r: String)
        ensures
            r@ == "forward"@,
    {
        String::from_str("forward")
    }
}

/// Labels of one log stream.
#[derive(Debug)]
pub struct StreamMetaData {
    /// Name of the host the stream came from.
    pub host_name: String,
    /// Name of the pod.
    pub pod_name: String,
    /// Name of the container.
    pub container_name: String,
}

/// One stream in a query response: its labels and its value rows, each
/// row a timestamp text followed by the log line.
#[derive(Debug)]
pub struct StreamContent {
    /// Labels of the stream.
    pub stream_metadata: StreamMetaData,
    /// The value rows.
    pub values: Vec<Vec<String>>,
}

/// The data portion of a query response.
#[derive(Debug)]
pub struct Data {
    /// The streams.
    pub result: Vec<StreamContent>,
}

/// A query response.
#[derive(Debug)]
pub struct LokiResponse {
    /// The response status word.
    pub status: String,
    /// The data portion.
    pub data: Data,
}

/// A time in nanoseconds since the epoch.
pub type SinceTime = u128;

/// Whether every character of `s` is a decimal digit.
pub open spec fn spec_all_digits(s: Seq<char>) -> bool {
    forall|i: int| 0 <= i < s.len() ==> '0' <= #[trigger] s[i] <= '9'
}

/// The number the digit text denotes.
pub open spec fn spec_dec_value(s: Seq<char>) -> int
    decreases s.len(),
{
    if s.len() == 0 {
        0
    } else {
        spec_dec_value(s.drop_last()) * 10 + (s.last() as u32 - '0' as u32)
    }
}

/// What parsing a timestamp text yields: its value when the text is a
/// plain decimal number that fits, zero otherwise.
pub open spec fn spec_parse_since(s: Seq<char>) -> int {
    if s.len() > 0 && spec_all_digits(s) && spec_dec_value(s) <= u128::MAX {
        spec_dec_value(s)
    } else {
        0
    }
}

/// A digit text denotes a number at least zero.
proof fn lemma_dec_value_nonneg(s: Seq<char>)
    requires
        spec_all_digits(s),
    ensures
        spec_dec_value(s) >= 0,
    decreases s.len(),
{
    if s.len() > 0 {
        assert(spec_all_digits(s.drop_last())) by {
            assert forall|i: int| 0 <= i < s.drop_last().len() implies '0' <= #[trigger] s.drop_last()[i] <= '9' by {
                assert(s.drop_last()[i] == s[i]);
            }
        }
        lemma_dec_value_nonneg(s.drop_last());
    }
}

/// A digit text denotes at least what any of its prefixes denotes.
proof fn lemma_dec_value_prefix(s: Seq<char>, j: int)
    requires
        spec_all_digits(s),
        0 <= j <= s.len(),
    ensures
        spec_dec_value(s.take(j)) <= spec_dec_value(s),
    decreases s.len() - j,
{
    if j < s.len() {
        assert(s.take(j + 1).drop_last() =~= s.take(j));
        assert(s.take(j + 1).last() == s[j]);
        assert(spec_all_digits(s.take(j))) by {
            assert forall|i: int| 0 <= i < s.take(j).len() implies '0' <= #[trigger] s.take(
                j,
            )[i] <= '9' by {
                assert(s.take(j)[i] == s[i]);
            }
        }
        lemma_dec_value_nonneg(s.take(j));
        assert(spec_dec_value(s.take(j + 1)) >= spec_dec_value(s.take(j)));
        lemma_dec_value_prefix(s, j + 1);
    } else {
        assert(s.take(j) =~= s);
    }
}

/// Parse a timestamp text: its decimal value when it is a plain run of
/// digits that fits, zero on anything else. Deliberately, no sign and no
/// surrounding space is accepted: the timestamps the service emits are
/// bare digits.
pub fn parse_since(s: &str) -> (r: SinceTime)
    ensures
        r == spec_parse_since(s@),
{
    let n = s.unicode_len();
    if n == 0 {
        return 0;
    }
    let mut acc: u128 = 0;
    let mut i: usize = 0;
    proof {
        assert(s@.take(0int) =~= Seq::<char>::empty());
    }
    while i < n
        invariant
            0 <= i <= n,
            n == s@.len(),
            n > 0,
            forall|j: int| 0 <= j < i ==> '0' <= #[trigger] s@[j] <= '9',
            acc == spec_dec_value(s@.take(i as int)),
        decreases n - i,
    {
        let c = s.get_char(i);
        if !('0' <= c && c <= '9') {
            return 0;
        }
        let d: u128 = (c as u32 - '0' as u32) as u128;
        proof {
            assert(s@.take(i as int + 1).drop_last() =~= s@.take(i as int));
            assert(s@.take(i as int + 1).last() == s@[i as int]);
        }
        if acc > u128::MAX / 10 {
            proof {
                assert(spec_all_digits(s@.take(i as int))) by {
                    assert forall|j: int| 0 <= j < s@.take(i as int).len() implies '0'
                        <= #[trigger] s@.take(i as int)[j] <= '9' by {
                        assert(s@.take(i as int)[j] == s@[j]);
                    }
                }
                lemma_dec_value_nonneg(s@.take(i as int));
                assert(acc * 10 + d > u128::MAX) by (nonlinear_arith)
                    requires
                        acc > u128::MAX / 10,
                        d >= 0,
                        acc >= 0,
                ;
            }
            // the value exceeds the range; treat the text as unusable
            return parse_since_overflow(Ghost(s@), Ghost(i as int), Ghost(acc as int), Ghost(d as int));
        }
        proof {
            assert(acc * 10 <= (u128::MAX / 10) * 10) by (nonlinear_arith)
                requires
                    0 <= acc <= u128::MAX / 10,
            ;
        }
        let acc10: u128 = acc * 10;
        if d > u128::MAX - acc10 {
            proof {
                assert(acc10 + d > u128::MAX);
            }
            return parse_since_overflow(Ghost(s@), Ghost(i as int), Ghost(acc as int), Ghost(d as int));
        }
        acc = acc10 + d;
        i = i + 1;
    }
    proof {
        assert(s@.take(n as int) =~= s@);
    }
    acc
}

/// The overflow exit of the parser: the value does not fit, so the parse
/// yields zero.
fn parse_since_overflow(s: Ghost<Seq<char>>, i: Ghost<int>, acc: Ghost<int>, d: Ghost<int>) -> (r:
    SinceTime)
    requires
        0 <= i@ < s@.len(),
        forall|j: int| 0 <= j <= i@ ==> '0' <= #[trigger] s@[j] <= '9',
        acc@ == spec_dec_value(s@.take(i@)),
        d@ == s@[i@] as u32 - '0' as u32,
        acc@ * 10 + d@ > u128::MAX,
    ensures
        r == spec_parse_since(s@),
{
    proof {
        if spec_all_digits(s@) {
            assert(s@.take(i@ + 1).drop_last() =~= s@.take(i@));
            assert(s@.take(i@ + 1).last() == s@[i@]);
            assert(spec_dec_value(s@.take(i@ + 1)) == acc@ * 10 + d@);
            lemma_dec_value_prefix(s@, i@ + 1);
            assert(spec_dec_value(s@) > u128::MAX);
        }
    }
    0
}

impl LokiResponse {
    /// The epoch timestamp, in nanoseconds, of the last value row of the
    /// last stream; zero when there is none or the text is not a number.
    pub open spec fn spec_last_stream_unix_time(&self) -> int {
        if self.data.result@.len() == 0 {
            0
        } else {
            let stream = self.data.result@.last();
            if stream.values@.len() == 0 {
                0
            } else {
                let row = stream.values@.last();
                if row@.len() == 0 {
                    0
                } else {
                    spec_parse_since(row@[0]@)
                }
            }
        }
    }

    /// Fetch the last stream's last log epoch timestamp, in nanoseconds.
    pub fn get_last_stream_unix_time(&self) -> (r: SinceTime)
        ensures
            r == self.spec_last_stream_unix_time(),
    {
        if self.data.result.len() == 0 {
            return 0;
        }
        let stream = &self.data.result[self.data.result.len() - 1];
        if stream.values.len() == 0 {
            return 0;
        }
        let row = &stream.values[stream.values.len() - 1];
        if row.len() == 0 {
            return 0;
        }
        parse_since(row[0].as_str())
    }

    /// Whether the response reports success.
    pub fn is_success(&self) -> (r: bool)
        ensures
            r == (self.status@ == "success"@),
    {
        let word: String = String::from_str("success");
        self.status == word
    }
}

/// Where the next poll starts after this response, if polling should go
/// on at all: a successful empty response or a zero timestamp ends the
/// walk; otherwise the next poll starts one millisecond past the last
/// seen timestamp.
pub fn next_poll_start(response: &LokiResponse) -> (r: Option<SinceTime>)
    ensures
        (response.status@ == "success"@ && response.data.result@.len() == 0) ==> r is None,
        response.spec_last_stream_unix_time() == 0 ==> r is None,
        response.spec_last_stream_unix_time() + 1000000 > u128::MAX ==> r is None,
        (!(response.status@ == "success"@ && response.data.result@.len() == 0)
            && response.spec_last_stream_unix_time() != 0
            && response.spec_last_stream_unix_time() + 1000000 <= u128::MAX) ==> (r matches Some(
        t) && t == response.spec_last_stream_unix_time() + 1000000),
{
    if response.is_success() && response.data.result.len() == 0 {
        return None;
    }
    let last = response.get_last_stream_unix_time();
    if last == 0 {
        return None;
    }
    if last > u128::MAX - 1000000 {
        return None;
    }
    Some(last + 1000000)
}

/// The log lines of a response: the second cell of every value row that
/// carries one, empty lines dropped. Every emitted line is such a cell,
/// and every such cell is emitted.
pub fn extract_logs(response: &LokiResponse) -> (r: Vec<String>)
    ensures
        forall|i: int|
            0 <= i < r@.len() ==> (#[trigger] r@[i])@.len() > 0 && exists|si: int, ri: int|
                0 <= si < response.data.result@.len() && 0 <= ri < response.data.result@[
                    si
                ].values@.len() && response.data.result@[si].values@[ri]@.len() > 1
                    && response.data.result@[si].values@[ri]@[1]@ == r@[i]@,
        forall|si: int, ri: int|
            0 <= si < response.data.result@.len() && 0 <= ri < response.data.result@[
                si
            ].values@.len() && (#[trigger] response.data.result@[si].values@[ri])@.len() > 1
                && response.data.result@[si].values@[ri]@[1]@.len() > 0
                ==> crate::msg::spec_id_in(r@, response.data.result@[si].values@[ri]@[1]@),
{
    let mut r: Vec<String> = Vec::new();
    let mut si: usize = 0;
    while si < response.data.result.len()
        invariant
            0 <= si <= response.data.result@.len(),
            forall|i: int|
                0 <= i < r@.len() ==> (#[trigger] r@[i])@.len() > 0 && exists|s2: int, r2: int|
                    0 <= s2 < response.data.result@.len() && 0 <= r2 < response.data.result@[
                        s2
                    ].values@.len() && response.data.result@[s2].values@[r2]@.len() > 1
                        && response.data.result@[s2].values@[r2]@[1]@ == r@[i]@,
            forall|s2: int, r2: int|
                0 <= s2 < si && 0 <= r2 < response.data.result@[s2].values@.len() && (
                #[trigger] response.data.result@[s2].values@[r2])@.len() > 1
                    && response.data.result@[s2].values@[r2]@[1]@.len() > 0
                    ==> crate::msg::spec_id_in(
                    r@,
                    response.data.result@[s2].values@[r2]@[1]@,
                ),
        decreases response.data.result@.len() - si,
    {
        let stream = &response.data.result[si];
        let mut ri: usize = 0;
        proof {
            assert forall|i: int|
                0 <= i < r@.len() implies (#[trigger] r@[i])@.len() > 0 && exists|
                s2: int,
                r2: int,
            |
                0 <= s2 < response.data.result@.len() && 0 <= r2 < response.data.result@[
                    s2
                ].values@.len() && response.data.result@[s2].values@[r2]@.len() > 1
                    && response.data.result@[s2].values@[r2]@[1]@ == r@[i]@ by {
                assert((r@[i])@.len() > 0);
            }
        }
        while ri < stream.values.len()
            invariant
                0 <= ri <= stream.values@.len(),
                si < response.data.result@.len(),
                *stream == response.data.result@[si as int],
                forall|i: int|
                    0 <= i < r@.len() ==> (#[trigger] r@[i])@.len() > 0 && exists|
                        s2: int,
                        r2: int,
                    |
                        0 <= s2 < response.data.result@.len() && 0 <= r2
                            < response.data.result@[s2].values@.len()
                            && response.data.result@[s2].values@[r2]@.len() > 1
                            && response.data.result@[s2].values@[r2]@[1]@ == r@[i]@,
                forall|s2: int, r2: int|
                    0 <= s2 < si && 0 <= r2 < response.data.result@[s2].values@.len() && (
                    #[trigger] response.data.result@[s2].values@[r2])@.len() > 1
                        && response.data.result@[s2].values@[r2]@[1]@.len() > 0
                        ==> crate::msg::spec_id_in(
                        r@,
                        response.data.result@[s2].values@[r2]@[1]@,
                    ),
                forall|r2: int|
                    0 <= r2 < ri && (#[trigger] response.data.result@[si as int].values@[
                        r2
                    ])@.len() > 1 && response.data.result@[si as int].values@[r2]@[1]@.len() > 0
                        ==> crate::msg::spec_id_in(
                        r@,
                        response.data.result@[si as int].values@[r2]@[1]@,
                    ),
            decreases stream.values@.len() - ri,
        {
            let ghost r_before = r@;
            let row = &stream.values[ri];
            if row.len() > 1 {
                let cell = &row[1];
                if cell.as_str().unicode_len() > 0 {
                    r.push(cell.clone());
                    proof {
                        assert(r@[r@.len() - 1]@ == response.data.result@[si as int].values@[
                            ri as int
                        ]@[1]@);
                        assert forall|i: int|
                            0 <= i < r@.len() implies (#[trigger] r@[i])@.len() > 0 && exists|
                            s2: int,
                            r2: int,
                        |
                            0 <= s2 < response.data.result@.len() && 0 <= r2
                                < response.data.result@[s2].values@.len()
                                && response.data.result@[s2].values@[r2]@.len() > 1
                                && response.data.result@[s2].values@[r2]@[1]@ == r@[i]@ by {
                            if i < r@.len() - 1 {
                                assert(r@[i] == r_before[i]);
                            } else {
                                assert(0 <= si < response.data.result@.len() && 0 <= ri
                                    < response.data.result@[si as int].values@.len()
                                    && response.data.result@[si as int].values@[
                                    ri as int
                                ]@.len() > 1 && response.data.result@[si as int].values@[
                                    ri as int
                                ]@[1]@ == r@[i]@);
                            }
                        }
                    }
                }
            }
            proof {
                assert forall|s2: int, r2: int|
                    0 <= s2 < si && 0 <= r2 < response.data.result@[s2].values@.len() && (
                    #[trigger] response.data.result@[s2].values@[r2])@.len() > 1
                        && response.data.result@[s2].values@[r2]@[1]@.len() > 0 implies
                    crate::msg::spec_id_in(r@, response.data.result@[s2].values@[r2]@[1]@) by {
                    let line = response.data.result@[s2].values@[r2]@[1]@;
                    let w = choose|w: int| 0 <= w < r_before.len() && r_before[w]@ == line;
                    assert(r@[w]@ == line);
                }
                assert forall|r2: int|
                    0 <= r2 < ri + 1 && (#[trigger] response.data.result@[si as int].values@[
                        r2
                    ])@.len() > 1 && response.data.result@[si as int].values@[r2]@[1]@.len() > 0
                        implies crate::msg::spec_id_in(
                    r@,
                    response.data.result@[si as int].values@[r2]@[1]@,
                ) by {
                    let line = response.data.result@[si as int].values@[r2]@[1]@;
                    if r2 < ri {
                        let w = choose|w: int| 0 <= w < r_before.len() && r_before[w]@ == line;
                        assert(r@[w]@ == line);
                    } else {
                        assert(r@[r@.len() - 1]@ == line);
                    }
                }
            }
            ri = ri + 1;
        }
        si = si + 1;
    }
    r
}

} // verus!
