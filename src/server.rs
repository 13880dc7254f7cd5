use vstd::prelude::*;

use crate::test::TestError;

verus! {

/// How many of the closest servers are tried when no server is named.
pub const MAX_CANDIDATES: usize = 3;

/// One measurement server of the directory.
#[derive(Debug)]
pub struct Server {
    /// Unique identifier.
    pub id: u32,
    /// Who runs the server.
    pub sponsor: String,
    /// Display name, usually the town.
    pub name: String,
}

/// What a server is, as plain values.
pub struct ServerView {
    pub id: u32,
    pub sponsor: Seq<char>,
    pub name: Seq<char>,
}

impl View for Server {
    type V = ServerView;

    open spec fn view(&self) -> ServerView {
        ServerView { id: self.id, sponsor: self.sponsor@, name: self.name@ }
    }
}

impl Clone for Server {
    fn clone(&self) -> (r: Self)
        ensures
            r@ == self@,
    {
        Server { id: self.id, sponsor: self.sponsor.clone(), name: self.name.clone() }
    }
}

impl Server {
    /// A server with the given id, sponsor and name.
    pub fn new(id: u32, sponsor: String, name: String) -> (r: Self)
        ensures
            r@ == (ServerView { id, sponsor: sponsor@, name: name@ }),
    {
        Server { id, sponsor, name }
    }
}

/// The directory as the selector sees it: every server in directory order,
/// and the same servers ordered by proximity, closest first.
pub struct ServerList {
    pub servers: Vec<Server>,
    pub closest: Vec<Server>,
}

pub open spec fn is_digit(c: char) -> bool {
    '0' <= c && c <= '9'
}

pub open spec fn all_digits(s: Seq<char>) -> bool {
    forall|i: int| 0 <= i < s.len() ==> is_digit(#[trigger] s[i])
}

/// The number that a string of decimal digits denotes.
pub open spec fn decimal_value(s: Seq<char>) -> nat
    decreases s.len(),
{
    if s.len() == 0 {
        0
    } else {
        decimal_value(s.drop_last()) * 10 + ((s.last() as u32 - '0' as u32) as nat)
    }
}

/// The digits of an identifier: what follows an optional leading `+`.
pub open spec fn id_digits(s: Seq<char>) -> Seq<char> {
    if s.len() > 0 && s[0] == '+' {
        s.drop_first()
    } else {
        s
    }
}

/// The identifier that a string denotes: an optional `+` and at least one
/// decimal digit, of a value that fits in `u32`.
pub open spec fn parsed_id(s: Seq<char>) -> Option<u32> {
    let d = id_digits(s);
    if d.len() > 0 && all_digits(d) && decimal_value(d) <= u32::MAX {
        Some(decimal_value(d) as u32)
    } else {
        None
    }
}

/// Reads a server identifier written in decimal.
pub fn parse_server_id(s: &str) -> (r: Option<u32>)
    ensures
        r == parsed_id(s@),
{
    let n = s.unicode_len();
    let mut start: usize = 0;
    if n > 0 && s.get_char(0) == '+' {
        start = 1;
    }
    let ghost d = id_digits(s@);
    assert(d =~= s@.subrange(start as int, n as int));
    if start == n {
        assert(d.len() == 0);
        return None;
    }
    let mut i: usize = start;
    let mut acc: u64 = 0;
    let mut overflow = false;
    while i < n
        invariant
            start <= i <= n,
            n == s@.len(),
            d == id_digits(s@),
            d =~= s@.subrange(start as int, n as int),
            all_digits(d.subrange(0, i - start)),
            !overflow ==> acc as nat == decimal_value(d.subrange(0, i - start)),
            !overflow ==> acc <= u32::MAX,
            overflow ==> decimal_value(d.subrange(0, i - start)) > u32::MAX,
        decreases n - i,
    {
        let c = s.get_char(i);
        let ghost prev = d.subrange(0, i - start);
        let ghost next = d.subrange(0, i + 1 - start);
        assert(next.drop_last() =~= prev);
        assert(next.last() == c);
        if !('0' <= c && c <= '9') {
            assert(!all_digits(d)) by {
                assert(d[i - start] == c);
            }
            return None;
        }
        assert(all_digits(next)) by {
            assert forall|k: int| 0 <= k < next.len() implies is_digit(#[trigger] next[k]) by {
                if k < prev.len() {
                    assert(next[k] == prev[k]);
                }
            }
        }
        if !overflow {
            let v: u64 = acc * 10 + ((c as u32 - '0' as u32) as u64);
            if v > u32::MAX as u64 {
                overflow = true;
            } else {
                acc = v;
            }
        }
        i = i + 1;
    }
    assert(d.subrange(0, n - start) =~= d);
    if overflow {
        None
    } else {
        Some(acc as u32)
    }
}

/// Whether `i` is the position of the first server with the given id.
pub open spec fn first_with_id(servers: Seq<Server>, id: u32, i: int) -> bool {
    &&& 0 <= i < servers.len()
    &&& servers[i].id == id
    &&& forall|j: int| 0 <= j < i ==> servers[j].id != id
}

pub open spec fn has_id(servers: Seq<Server>, id: u32) -> bool {
    exists|i: int| 0 <= i < servers.len() && servers[i].id == id
}

/// The identifiers of the candidates that a selection yields, or its error.
pub open spec fn selected_ids(
    servers: Seq<Server>,
    closest: Seq<Server>,
    server_id: Option<Seq<char>>,
) -> Result<Seq<u32>, TestError> {
    match server_id {
        Some(s) => match parsed_id(s) {
            None => Err(TestError::InvalidIdentifier),
            Some(id) => if has_id(servers, id) {
                Ok(seq![id])
            } else {
                Err(TestError::ServerNotFound(id))
            },
        },
        None => if closest.len() == 0 {
            Err(TestError::NoServersAvailable)
        } else {
            let k = if closest.len() < MAX_CANDIDATES {
                closest.len() as int
            } else {
                MAX_CANDIDATES as int
            };
            Ok(closest.take(k).map_values(|s: Server| s.id))
        },
    }
}

/// The text of an optional string.
pub open spec fn opt_view(s: Option<&String>) -> Option<Seq<char>> {
    match s {
        Some(t) => Some(t@),
        None => None,
    }
}

impl ServerList {
    /// The candidates to try, in the order of trial. With an explicit id,
    /// the single server that carries it; otherwise the closest few.
    pub fn select_server(&self, server_id: Option<&String>) -> (r: Result<Vec<Server>, TestError>)
        ensures
            match server_id {
                Some(s) => match parsed_id(s@) {
                    None => r == Err::<Vec<Server>, TestError>(TestError::InvalidIdentifier),
                    Some(id) => if has_id(self.servers@, id) {
                        r is Ok && exists|i: int|
                            first_with_id(self.servers@, id, i) && r->Ok_0@.len() == 1
                                && r->Ok_0@[0]@ == #[trigger] self.servers@[i]@
                    } else {
                        r == Err::<Vec<Server>, TestError>(TestError::ServerNotFound(id))
                    },
                },
                None => if self.closest@.len() == 0 {
                    r == Err::<Vec<Server>, TestError>(TestError::NoServersAvailable)
                } else {
                    r is Ok && r->Ok_0@.len() == if self.closest@.len() < MAX_CANDIDATES {
                        self.closest@.len()
                    } else {
                        MAX_CANDIDATES as nat
                    } && forall|k: int|
                        0 <= k < r->Ok_0@.len() ==> (#[trigger] r->Ok_0@[k])@
                            == self.closest@[k]@
                },
            },
            match selected_ids(self.servers@, self.closest@, opt_view(server_id)) {
                Ok(ids) => r is Ok && r->Ok_0@.map_values(|s: Server| s.id) == ids,
                Err(e) => r == Err::<Vec<Server>, TestError>(e),
            },
    {
        match server_id {
            Some(s) => {
                let id = match parse_server_id(s.as_str()) {
                    Some(id) => id,
                    None => return Err(TestError::InvalidIdentifier),
                };
                let mut i: usize = 0;
                while i < self.servers.len()
                    invariant
                        0 <= i <= self.servers@.len(),
                        server_id == Some(s),
                        parsed_id(s@) == Some(id),
                        forall|j: int| 0 <= j < i ==> self.servers@[j].id != id,
                    decreases self.servers@.len() - i,
                {
                    if self.servers[i].id == id {
                        let found = self.servers[i].clone();
                        let mut v: Vec<Server> = Vec::new();
                        v.push(found);
                        assert(first_with_id(self.servers@, id, i as int));
                        assert(has_id(self.servers@, id));
                        assert(first_with_id(self.servers@, id, i as int) && v@.len() == 1
                            && v@[0]@ == self.servers@[i as int]@);
                        assert(v@.map_values(|s: Server| s.id) =~= seq![id]);
                        return Ok(v);
                    }
                    i = i + 1;
                }
                Err(TestError::ServerNotFound(id))
            },
            None => {
                if self.closest.len() == 0 {
                    return Err(TestError::NoServersAvailable);
                }
                let mut v: Vec<Server> = Vec::new();
                let mut k: usize = 0;
                while k < self.closest.len() && k < MAX_CANDIDATES
                    invariant
                        k <= self.closest@.len(),
                        k <= MAX_CANDIDATES,
                        v@.len() == k,
                        forall|j: int| 0 <= j < k ==> (#[trigger] v@[j])@ == self.closest@[j]@,
                    decreases MAX_CANDIDATES - k,
                {
                    v.push(self.closest[k].clone());
                    k = k + 1;
                }
                assert(v@.map_values(|s: Server| s.id) =~= self.closest@.take(k as int).map_values(
                    |s: Server| s.id,
                ));
                Ok(v)
            },
        }
    }
}

} // verus!
