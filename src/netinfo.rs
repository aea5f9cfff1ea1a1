//! The list of local addresses offered to the user for reaching this host.
use vstd::prelude::*;
use vstd::string::{StrSliceExecFns, StringExecFns};

verus! {

/// Request for the host's addresses.
pub struct GetNetworkInterfaces;

/// The host's addresses, sorted and without duplicates, and its name.
pub struct NetworkInterfacesInfo {
    pub addresses: Vec<String>,
    pub hostname: Option<String>,
}

/// `a` sorts strictly before `b`: lexicographic order of code points, a
/// proper prefix first (the order of `String`, byte-wise on UTF-8).
pub open spec fn text_lt(a: Seq<char>, b: Seq<char>) -> bool
    decreases a.len(),
{
    if a.len() == 0 {
        b.len() > 0
    } else if b.len() == 0 {
        false
    } else if a[0] != b[0] {
        (a[0] as u32) < (b[0] as u32)
    } else {
        text_lt(a.drop_first(), b.drop_first())
    }
}

/// The texts of a list of strings.
pub open spec fn views(s: Seq<String>) -> Seq<Seq<char>> {
    s.map_values(|x: String| x@)
}

/// No element sorts strictly before one in front of it.
pub open spec fn is_sorted(s: Seq<String>) -> bool {
    forall|i: int, j: int| 0 <= i < j < s.len() ==> !text_lt(#[trigger] s[j]@, #[trigger] s[i]@)
}

/// Relies on `slice::sort` on `String`: ascending order of `String`'s `Ord`
/// (byte-wise lexicographic, which on UTF-8 is the code-point order), and
/// the result holds the same elements as the input.
#[verifier::external_body]
fn sort_texts(v: &mut Vec<String>)
    ensures
        final(v)@.to_multiset() == old(v)@.to_multiset(),
        is_sorted(final(v)@),
{
    v.sort();
}

/// `s` with each run of equal neighbours reduced to one element.
pub open spec fn dedup_adjacent(s: Seq<Seq<char>>) -> Seq<Seq<char>>
    decreases s.len(),
{
    if s.len() <= 1 {
        s
    } else if s.last() == s[s.len() - 2] {
        dedup_adjacent(s.drop_last())
    } else {
        dedup_adjacent(s.drop_last()).push(s.last())
    }
}

/// The text in front of the first `%` (a zone index), or all of it.
pub open spec fn before_percent(s: Seq<char>) -> Seq<char>
    decreases s.len(),
{
    if s.len() == 0 {
        s
    } else if s[0] == '%' {
        Seq::empty()
    } else {
        seq![s[0]] + before_percent(s.drop_first())
    }
}

proof fn lemma_before_percent(s: Seq<char>, p: int)
    requires
        0 <= p <= s.len(),
        forall|k: int| 0 <= k < p ==> s[k] != '%',
        p == s.len() || s[p] == '%',
    ensures
        before_percent(s) == s.subrange(0, p),
    decreases s.len(),
{
    if s.len() == 0 {
        assert(s.subrange(0, 0) =~= s);
    } else if s[0] == '%' {
        assert(s.subrange(0, 0) =~= Seq::<char>::empty());
    } else {
        let t = s.drop_first();
        assert forall|k: int| 0 <= k < p - 1 implies t[k] != '%' by {
            assert(t[k] == s[k + 1]);
        }
        lemma_before_percent(t, p - 1);
        assert(seq![s[0]] + t.subrange(0, p - 1) =~= s.subrange(0, p));
    }
}

/// Drops a zone index (`%...`) from an address.
pub fn strip_zone(addr: &String) -> (r: String)
    ensures
        r@ == before_percent(addr@),
{
    let s = addr.as_str();
    let n = s.unicode_len();
    let mut p: usize = 0;
    while p < n && s.get_char(p) != '%'
        invariant
            n == s@.len(),
            p <= n,
            forall|k: int| 0 <= k < p ==> s@[k] != '%',
        decreases n - p,
    {
        p = p + 1;
    }
    proof {
        lemma_before_percent(s@, p as int);
    }
    String::from_str(s.substring_char(0, p))
}

/// The addresses always offered, the `<host>.local` name unless the host
/// name is itself a loopback name, then the interface addresses found.
pub open spec fn candidates(hostname: Option<String>, found: Result<Vec<String>, String>) -> Seq<Seq<char>> {
    let base = seq!["127.0.0.1"@, "localhost"@];
    let with_host = match hostname {
        Some(h) => if h@ != "localhost"@ && h@ != "127.0.0.1"@ {
            base.push(h@ + ".local"@)
        } else {
            base
        },
        None => base,
    };
    match found {
        Ok(a) => with_host + views(a@),
        Err(_) => with_host,
    }
}

impl GetNetworkInterfaces {
    /// Address list from the host name and the interface addresses that
    /// the system reported: candidates sorted, duplicates dropped, then zone
    /// indexes cut off.
    pub fn handle(&self, hostname: Option<String>, found: Result<Vec<String>, String>) -> (r: NetworkInterfacesInfo)
        ensures
            r.hostname == hostname,
            exists|sorted: Seq<String>|
                is_sorted(sorted)
                && #[trigger] views(sorted).to_multiset()
                    == candidates(hostname, found).to_multiset()
                && views(r.addresses@)
                    == dedup_adjacent(views(sorted)).map_values(|t: Seq<char>| before_percent(t)),
    {
        proof {
            reveal_strlit("127.0.0.1");
            reveal_strlit("localhost");
            reveal_strlit(".local");
        }
        let mut addresses: Vec<String> = Vec::new();
        addresses.push(String::from_str("127.0.0.1"));
        addresses.push(String::from_str("localhost"));
        match &hostname {
            Some(h) => {
                let is_loopback_name = h.eq(&String::from_str("localhost")) || h.eq(&String::from_str("127.0.0.1"));
                if !is_loopback_name {
                    addresses.push(h.clone().concat(".local"));
                }
            },
            None => {},
        }
        let ghost head = views(addresses@);
        match found {
            Ok(a) => {
                let mut i: usize = 0;
                while i < a.len()
                    invariant
                        i <= a@.len(),
                        views(addresses@) == head + views(a@.subrange(0, i as int)),
                    decreases a.len() - i,
                {
                    let ghost before = addresses@;
                    let c = a[i].clone();
                    addresses.push(c);
                    assert(views(addresses@) =~= views(before).push(c@));
                    assert(views(a@.subrange(0, i + 1)) =~= views(a@.subrange(0, i as int)).push(a@[i as int]@));
                    assert(views(addresses@) =~= head + views(a@.subrange(0, i + 1)));
                    i = i + 1;
                }
                assert(a@.subrange(0, a@.len() as int) =~= a@);
            },
            Err(_) => {},
        }
        assert(views(addresses@) =~= candidates(hostname, found));
        let ghost unsorted = addresses@;
        sort_texts(&mut addresses);
        let ghost sorted = addresses@;
        let ghost texts = views(sorted);
        proof {
            lemma_views_multiset(unsorted, sorted);
        }
        let mut out: Vec<String> = Vec::new();
        let mut i: usize = 0;
        while i < addresses.len()
            invariant
                sorted == addresses@,
                texts == views(sorted),
                i <= sorted.len(),
                views(out@)
                    == dedup_adjacent(texts.subrange(0, i as int)).map_values(|t: Seq<char>| before_percent(t)),
            decreases addresses.len() - i,
        {
            let ghost prev = texts.subrange(0, i as int);
            let ghost next = texts.subrange(0, i + 1);
            assert(next.drop_last() =~= prev);
            let duplicate = i > 0 && addresses[i].eq(&addresses[i - 1]);
            if !duplicate {
                let cut = strip_zone(&addresses[i]);
                let ghost out_before = out@;
                out.push(cut);
                proof {
                    assert(views(out@) =~= views(out_before).push(cut@));
                    assert(cut@ == before_percent(next.last()));
                    assert(dedup_adjacent(next) == dedup_adjacent(prev).push(next.last()));
                    if i > 0 {
                        assert(next.last() != next[next.len() - 2]);
                    }
                    assert(views(out@)
                        =~= dedup_adjacent(next).map_values(|t: Seq<char>| before_percent(t)));
                }
            } else {
                proof {
                    assert(next.last() == next[next.len() - 2]);
                    assert(dedup_adjacent(next) == dedup_adjacent(prev));
                }
            }
            i = i + 1;
        }
        assert(texts.subrange(0, sorted.len() as int) =~= texts);
        NetworkInterfacesInfo { addresses: out, hostname }
    }
}

proof fn lemma_views_multiset(a: Seq<String>, b: Seq<String>)
    requires
        a.to_multiset() == b.to_multiset(),
    ensures
        views(a).to_multiset() == views(b).to_multiset(),
    decreases a.len(),
{
    broadcast use vstd::seq_lib::group_to_multiset_ensures;

    if a.len() == 0 {
        assert(b.to_multiset().len() == 0);
        assert(b.len() == 0);
        assert(views(a) =~= views(b));
    } else {
        let x = a.last();
        let a1 = a.drop_last();
        assert(a1.push(x) =~= a);
        assert(a.to_multiset().count(x) > 0);
        assert(b.contains(x));
        let i = choose|i: int| 0 <= i < b.len() && b[i] == x;
        let b1 = b.remove(i);
        assert(b1.insert(i, x) =~= b);
        assert(a1.to_multiset() =~= b1.to_multiset()) by {
            assert(a.to_multiset() == a1.to_multiset().insert(x));
            assert(b.to_multiset() == b1.to_multiset().insert(x));
        }
        lemma_views_multiset(a1, b1);
        assert(views(a) =~= views(a1).push(x@));
        assert(views(b) =~= views(b1).insert(i, x@));
    }
}

} // verus!
