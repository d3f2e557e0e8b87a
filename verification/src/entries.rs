//! Operations on the entries of a vault: adding or updating an account,
//! removing accounts, looking one up and listing them in order.
use vstd::prelude::*;

use crate::text::{precedes, seq_precedes, lemma_precedes_total, lemma_precedes_transitive};
use crate::vault::{Entry, VaultData};

verus! {

/// `e` is the account `username` on `service`.
pub open spec fn is_account(e: Entry, service: Seq<char>, username: Seq<char>) -> bool {
    e.service@ == service && e.username@ == username
}

/// `e` is selected by a service and, where one is given, a username.
pub open spec fn is_selected(e: Entry, service: Seq<char>, username: Option<Seq<char>>) -> bool {
    match username {
        Some(u) => e.service@ == service && e.username@ == u,
        None => e.service@ == service,
    }
}

/// The view of an optional string.
pub open spec fn opt_view(s: Option<&String>) -> Option<Seq<char>> {
    match s {
        Some(x) => Some(x@),
        None => None,
    }
}

/// The entry that an update of the account at `old` writes.
pub open spec fn updated_entry(
    old: Entry,
    password: String,
    notes: Option<String>,
    updated_at: u64,
) -> Entry {
    Entry { service: old.service, username: old.username, password, notes, updated_at }
}

/// The positions, in order, of the entries among the first `n` of `s` that
/// a service and an optional username select.
pub open spec fn selected_positions(
    s: Seq<Entry>,
    service: Seq<char>,
    username: Option<Seq<char>>,
    n: int,
) -> Seq<int>
    decreases n,
{
    if n <= 0 {
        Seq::empty()
    } else {
        let before = selected_positions(s, service, username, n - 1);
        if is_selected(s[n - 1], service, username) {
            before.push(n - 1)
        } else {
            before
        }
    }
}

/// The position of the first entry among the first `n` of `s` for the
/// account `username` on `service`, or -1 when there is none.
pub open spec fn first_account_index(s: Seq<Entry>, service: Seq<char>, username: Seq<char>, n: int) -> int
    decreases n,
{
    if n <= 0 {
        -1
    } else {
        let i = first_account_index(s, service, username, n - 1);
        if i >= 0 {
            i
        } else if is_account(s[n - 1], service, username) {
            n - 1
        } else {
            -1
        }
    }
}

/// The position of the first entry of `s` for the account, or -1.
pub open spec fn account_index(s: Seq<Entry>, service: Seq<char>, username: Seq<char>) -> int {
    first_account_index(s, service, username, s.len() as int)
}

/// The entries after saving the account `username` on `service`: its first
/// entry updated, or a new entry appended.
pub open spec fn upserted(
    s: Seq<Entry>,
    service: String,
    username: String,
    password: String,
    notes: Option<String>,
    updated_at: u64,
) -> Seq<Entry> {
    let i = account_index(s, service@, username@);
    if i < 0 {
        s.push(Entry { service, username, password, notes, updated_at })
    } else {
        s.update(i, updated_entry(s[i], password, notes, updated_at))
    }
}

/// `first_account_index` is the first matching position, or -1 when none
/// of the first `n` entries matches.
pub proof fn lemma_account_index(s: Seq<Entry>, service: Seq<char>, username: Seq<char>, n: int)
    requires
        0 <= n <= s.len(),
    ensures
        ({
            let i = first_account_index(s, service, username, n);
            &&& -1 <= i < n
            &&& i >= 0 ==> is_account(s[i], service, username) && forall|j: int|
                0 <= j < i ==> !is_account(#[trigger] s[j], service, username)
            &&& i < 0 ==> forall|j: int| 0 <= j < n ==> !is_account(#[trigger] s[j], service, username)
        }),
    decreases n,
{
    if n > 0 {
        lemma_account_index(s, service, username, n - 1);
    }
}

/// No two entries are for the same account.
pub open spec fn unique_accounts(s: Seq<Entry>) -> bool {
    forall|i: int, j: int| 0 <= i < j < s.len() ==> !same_key(#[trigger] s[i], #[trigger] s[j])
}

/// After an account is saved, the vault holds an entry for it with the
/// saved password, notes and time, every other entry is as it was, and a
/// vault with one entry per account still has one entry per account.
pub proof fn lemma_upsert_saves_account(
    s: Seq<Entry>,
    service: String,
    username: String,
    password: String,
    notes: Option<String>,
    updated_at: u64,
)
    ensures
        ({
            let r = upserted(s, service, username, password, notes, updated_at);
            let i = account_index(s, service@, username@);
            let k = if i < 0 { s.len() as int } else { i };
            &&& 0 <= k < r.len()
            &&& is_account(r[k], service@, username@)
            &&& r[k].password == password && r[k].notes == notes && r[k].updated_at == updated_at
            &&& forall|j: int| 0 <= j < s.len() && j != k ==> #[trigger] r[j] == s[j]
            &&& r.len() == if i < 0 { s.len() + 1int } else { s.len() as int }
            &&& unique_accounts(s) ==> unique_accounts(r)
        }),
{
    lemma_account_index(s, service@, username@, s.len() as int);
    let r = upserted(s, service, username, password, notes, updated_at);
    let i = account_index(s, service@, username@);
    if unique_accounts(s) {
        assert forall|a: int, b: int| 0 <= a < b < r.len() implies !same_key(#[trigger] r[a], #[trigger] r[b]) by {
            if i < 0 {
                if b == s.len() {
                    assert(!is_account(s[a], service@, username@));
                }
            } else {
                assert(same_key(r[a], s[a]) && same_key(r[b], s[b]));
            }
        }
    }
}

/// The outcome of looking up an entry by service and optional username.
#[derive(Debug)]
pub enum EntrySelection {
    /// No entry matches.
    NotFound,
    /// Several entries of the service match and no username was given;
    /// their usernames, in vault order.
    Ambiguous(Vec<String>),
    /// The position of the first matching entry.
    Found(usize),
}

/// `a` sorts strictly before `b`: by service, then by username.
pub open spec fn entry_precedes(a: Entry, b: Entry) -> bool {
    ||| seq_precedes(a.service@, b.service@)
    ||| (a.service@ == b.service@ && seq_precedes(a.username@, b.username@))
}

/// `a` and `b` have the same sort key.
pub open spec fn same_key(a: Entry, b: Entry) -> bool {
    a.service@ == b.service@ && a.username@ == b.username@
}

/// `r` is `s` sorted by service and username, with entries of equal key in
/// their original order, and `p` tells where each entry of `r` came from.
pub open spec fn is_stable_sort_by(r: Seq<Entry>, s: Seq<Entry>, p: Seq<int>) -> bool {
    &&& r.len() == s.len()
    &&& p.len() == s.len()
    &&& forall|i: int| 0 <= i < p.len() ==> 0 <= #[trigger] p[i] < s.len() && r[i] == s[p[i]]
    &&& forall|i: int, j: int| 0 <= i < j < p.len() ==> #[trigger] p[i] != #[trigger] p[j]
    &&& forall|i: int, j: int|
        0 <= i < j < r.len() ==> !entry_precedes(#[trigger] r[j], #[trigger] r[i])
    &&& forall|i: int, j: int|
        0 <= i < j < r.len() && same_key(#[trigger] r[i], #[trigger] r[j]) ==> p[i] < p[j]
}

/// `r` is `s` sorted stably by service and username.
pub open spec fn is_sorted_listing(r: Seq<Entry>, s: Seq<Entry>) -> bool {
    exists|p: Seq<int>| is_stable_sort_by(r, s, p)
}

/// The order on entries is a strict weak order whose ties are equal keys.
pub proof fn lemma_entry_order(a: Entry, b: Entry, c: Entry)
    ensures
        !entry_precedes(a, a),
        entry_precedes(a, b) ==> !entry_precedes(b, a),
        (!entry_precedes(a, b) && !entry_precedes(b, a)) == same_key(a, b),
        entry_precedes(a, b) && entry_precedes(b, c) ==> entry_precedes(a, c),
        !entry_precedes(a, b) && !entry_precedes(b, c) ==> !entry_precedes(a, c),
        same_key(a, b) ==> entry_precedes(a, c) == entry_precedes(b, c) && entry_precedes(c, a)
            == entry_precedes(c, b),
{
    lemma_precedes_total(a.service@, b.service@);
    lemma_precedes_total(b.service@, c.service@);
    lemma_precedes_total(a.service@, c.service@);
    lemma_precedes_total(b.service@, a.service@);
    lemma_precedes_total(c.service@, b.service@);
    lemma_precedes_total(c.service@, a.service@);
    lemma_precedes_total(a.username@, b.username@);
    lemma_precedes_total(b.username@, c.username@);
    lemma_precedes_total(a.username@, c.username@);
    lemma_precedes_total(b.username@, a.username@);
    lemma_precedes_total(c.username@, b.username@);
    lemma_precedes_total(c.username@, a.username@);
    if seq_precedes(a.service@, b.service@) && seq_precedes(b.service@, c.service@) {
        lemma_precedes_transitive(a.service@, b.service@, c.service@);
    }
    if seq_precedes(a.username@, b.username@) && seq_precedes(b.username@, c.username@) {
        lemma_precedes_transitive(a.username@, b.username@, c.username@);
    }
    if seq_precedes(b.service@, a.service@) && seq_precedes(a.service@, c.service@) {
        lemma_precedes_transitive(b.service@, a.service@, c.service@);
    }
    if seq_precedes(a.service@, c.service@) && seq_precedes(c.service@, b.service@) {
        lemma_precedes_transitive(a.service@, c.service@, b.service@);
    }
    if seq_precedes(c.service@, b.service@) && seq_precedes(b.service@, a.service@) {
        lemma_precedes_transitive(c.service@, b.service@, a.service@);
    }
    if seq_precedes(b.username@, a.username@) && seq_precedes(a.username@, c.username@) {
        lemma_precedes_transitive(b.username@, a.username@, c.username@);
    }
    if seq_precedes(a.username@, c.username@) && seq_precedes(c.username@, b.username@) {
        lemma_precedes_transitive(a.username@, c.username@, b.username@);
    }
    if seq_precedes(c.username@, b.username@) && seq_precedes(b.username@, a.username@) {
        lemma_precedes_transitive(c.username@, b.username@, a.username@);
    }
}

impl VaultData {
    /// Position of the first entry for the account `username` on `service`.
    fn find_account(&self, service: &String, username: &String) -> (r: Option<usize>)
        ensures
            match r {
                Some(i) => i < self.entries@.len() && is_account(
                    self.entries@[i as int],
                    service@,
                    username@,
                ) && forall|j: int|
                    0 <= j < i ==> !is_account(#[trigger] self.entries@[j], service@, username@),
                None => forall|j: int|
                    0 <= j < self.entries@.len() ==> !is_account(
                        #[trigger] self.entries@[j],
                        service@,
                        username@,
                    ),
            },
    {
        let n = self.entries.len();
        let mut i: usize = 0;
        while i < n
            invariant
                n == self.entries@.len(),
                i <= n,
                forall|j: int|
                    0 <= j < i ==> !is_account(#[trigger] self.entries@[j], service@, username@),
            decreases n - i,
        {
            let e = &self.entries[i];
            if e.service == *service && e.username == *username {
                return Some(i);
            }
            i = i + 1;
        }
        None
    }

    /// Sets the password, notes and time of the first entry for the account
    /// `username` on `service`, or appends a new entry for it when there is
    /// none. Returns whether an entry was added.
    pub fn upsert_entry(
        &mut self,
        service: String,
        username: String,
        password: String,
        notes: Option<String>,
        updated_at: u64,
    ) -> (created: bool)
        ensures
            created == (account_index(old(self).entries@, service@, username@) < 0),
            final(self).entries@ == upserted(
                old(self).entries@,
                service,
                username,
                password,
                notes,
                updated_at,
            ),
    {
        proof {
            lemma_account_index(self.entries@, service@, username@, self.entries@.len() as int);
        }
        match self.find_account(&service, &username) {
            Some(i) => {
                let existing = self.entries.remove(i);
                let entry = Entry {
                    service: existing.service,
                    username: existing.username,
                    password,
                    notes,
                    updated_at,
                };
                self.entries.insert(i, entry);
                assert(self.entries@ =~= old(self).entries@.update(
                    i as int,
                    updated_entry(old(self).entries@[i as int], password, notes, updated_at),
                ));
                false
            },
            None => {
                self.entries.push(Entry { service, username, password, notes, updated_at });
                true
            },
        }
    }

    /// Removes every entry of `service`, or, with a username, every entry of
    /// that account, keeping the others in order. Returns how many were
    /// removed.
    pub fn remove_entries(&mut self, service: &String, username: Option<&String>) -> (removed:
        usize)
        ensures
            final(self).entries@ == old(self).entries@.filter(
                |e: Entry| !is_selected(e, service@, opt_view(username)),
            ),
            removed == old(self).entries@.len() - final(self).entries@.len(),
    {
        let ghost s = self.entries@;
        let ghost keep = |e: Entry| !is_selected(e, service@, opt_view(username));
        let n = self.entries.len();
        let mut k: usize = 0;
        let mut i: usize = 0;
        assert(s.take(0) =~= Seq::<Entry>::empty());
        assert(s.skip(0) =~= s);
        while k < n
            invariant
                n == s.len(),
                k <= n,
                i == s.take(k as int).filter(keep).len(),
                self.entries@ =~= s.take(k as int).filter(keep) + s.skip(k as int),
                keep == (|e: Entry| !is_selected(e, service@, opt_view(username))),
            decreases n - k,
        {
            proof {
                reveal(Seq::filter);
                s.take(k as int).lemma_filter_len(keep);
            }
            let ghost before = s.take(k as int).filter(keep);
            let ghost t = s.take(k + 1);
            assert(t.drop_last() =~= s.take(k as int));
            assert(t.last() == s[k as int]);
            assert(s.skip(k as int) =~= seq![s[k as int]] + s.skip(k + 1));
            assert(self.entries@[i as int] == s[k as int]);
            let e = &self.entries[i];
            let selected = match username {
                Some(u) => e.service == *service && e.username == *u,
                None => e.service == *service,
            };
            assert(selected == !keep(s[k as int]));
            if selected {
                assert(s.take(k + 1).filter(keep) == before);
                self.entries.remove(i);
                assert(self.entries@ =~= before + s.skip(k + 1));
            } else {
                assert(s.take(k + 1).filter(keep) == before.push(s[k as int]));
                assert(self.entries@ =~= before.push(s[k as int]) + s.skip(k + 1));
                i = i + 1;
            }
            k = k + 1;
        }
        assert(s.take(n as int) =~= s);
        assert(s.skip(n as int) =~= Seq::<Entry>::empty());
        proof {
            s.lemma_filter_len(keep);
        }
        n - i
    }
}

/// The positions of the entries that a service and an optional username
/// select, in vault order.
pub open spec fn positions_of(
    entries: Seq<Entry>,
    service: Seq<char>,
    username: Option<Seq<char>>,
) -> Seq<int> {
    selected_positions(entries, service, username, entries.len() as int)
}

/// Looks up an entry the way `get` does: by service, narrowed to a username
/// where one is given. Several matches without a username are ambiguous;
/// otherwise the first match is chosen.
pub fn select_entry(entries: &Vec<Entry>, service: &String, username: Option<&String>) -> (r:
    EntrySelection)
    ensures
        ({
            let pos = positions_of(entries@, service@, opt_view(username));
            &&& (r is NotFound) == (pos.len() == 0)
            &&& (r is Ambiguous) == (username is None && pos.len() > 1)
            &&& r matches EntrySelection::Ambiguous(names) ==> names@.len() == pos.len() && forall|
                i: int,
            | 0 <= i < pos.len() ==> #[trigger] names@[i]@ == entries@[pos[i]].username@
            &&& r matches EntrySelection::Found(i) ==> i == pos[0]
        }),
{
    let ghost sv = service@;
    let ghost uv = opt_view(username);
    let n = entries.len();
    let mut found: Vec<usize> = Vec::new();
    let mut k: usize = 0;
    while k < n
        invariant
            n == entries@.len(),
            k <= n,
            sv == service@,
            uv == opt_view(username),
            found@.len() == selected_positions(entries@, sv, uv, k as int).len(),
            forall|i: int|
                0 <= i < found@.len() ==> #[trigger] found@[i] as int == selected_positions(
                    entries@,
                    sv,
                    uv,
                    k as int,
                )[i] && found@[i] < k,
        decreases n - k,
    {
        let e = &entries[k];
        let selected = match username {
            Some(u) => e.service == *service && e.username == *u,
            None => e.service == *service,
        };
        assert(selected == is_selected(entries@[k as int], sv, uv));
        if selected {
            found.push(k);
        }
        k = k + 1;
    }
    let ghost pos = positions_of(entries@, sv, uv);
    if found.len() == 0 {
        EntrySelection::NotFound
    } else if found.len() > 1 && username.is_none() {
        let mut names: Vec<String> = Vec::new();
        let m = found.len();
        let mut t: usize = 0;
        while t < m
            invariant
                m == found@.len(),
                n == entries@.len(),
                t <= m,
                names@.len() == t,
                pos.len() == m,
                forall|i: int| 0 <= i < m ==> #[trigger] found@[i] as int == pos[i] && found@[i] < n,
                forall|i: int| 0 <= i < t ==> #[trigger] names@[i]@ == entries@[pos[i]].username@,
            decreases m - t,
        {
            let name = entries[found[t]].username.clone();
            names.push(name);
            t = t + 1;
        }
        EntrySelection::Ambiguous(names)
    } else {
        EntrySelection::Found(found[0])
    }
}

/// The entries sorted by service and then username, entries with the same
/// service and username keeping their order (a stable sort).
pub fn sort_entries(entries: Vec<Entry>) -> (r: Vec<Entry>)
    ensures
        is_sorted_listing(r@, entries@),
{
    let ghost s = entries@;
    let n = entries.len();
    let mut rest = entries;
    let mut out: Vec<Entry> = Vec::new();
    let ghost mut p: Seq<int> = Seq::empty();
    let mut k: usize = n;
    while k > 0
        invariant
            n == s.len(),
            k <= n,
            rest@ == s.subrange(0, k as int),
            out@.len() == n - k,
            p.len() == out@.len(),
            forall|i: int|
                0 <= i < p.len() ==> k <= #[trigger] p[i] < n && out@[i] == s[p[i]],
            forall|i: int, j: int| 0 <= i < j < p.len() ==> #[trigger] p[i] != #[trigger] p[j],
            forall|i: int, j: int|
                0 <= i < j < out@.len() ==> !entry_precedes(#[trigger] out@[j], #[trigger] out@[i]),
            forall|i: int, j: int|
                0 <= i < j < out@.len() && same_key(#[trigger] out@[i], #[trigger] out@[j]) ==> p[i]
                    < p[j],
        decreases k,
    {
        let x = rest.pop().unwrap();
        assert(x == s[k - 1]);
        let len = out.len();
        let mut j: usize = 0;
        while j < len && (precedes(out[j].service.as_str(), x.service.as_str()) || (
        out[j].service == x.service && precedes(out[j].username.as_str(), x.username.as_str())))
            invariant
                len == out@.len(),
                j <= len,
                forall|t: int| 0 <= t < j ==> entry_precedes(#[trigger] out@[t], x),
            decreases len - j,
        {
            j = j + 1;
        }
        let ghost old_out = out@;
        let ghost old_p = p;
        assert(j < len ==> !entry_precedes(old_out[j as int], x));
        out.insert(j, x);
        proof {
            p = old_p.insert(j as int, k - 1);
            assert forall|a: int, b: int| 0 <= a < b < out@.len() implies !entry_precedes(
                #[trigger] out@[b],
                #[trigger] out@[a],
            ) && (same_key(out@[a], out@[b]) ==> p[a] < p[b]) by {
                if a < j && b == j {
                    lemma_entry_order(old_out[a], x, x);
                } else if a < j && b > j {
                    lemma_entry_order(old_out[a], old_out[b - 1], x);
                } else if a == j && b > j {
                    lemma_entry_order(old_out[b - 1], old_out[j as int], x);
                    lemma_entry_order(x, old_out[j as int], old_out[b - 1]);
                } else if a > j && b > j {
                    assert(out@[a] == old_out[a - 1] && out@[b] == old_out[b - 1]);
                }
            }
            assert forall|a: int, b: int| 0 <= a < b < p.len() implies #[trigger] p[a]
                != #[trigger] p[b] by {
                if a != j as int && b != j as int {
                    let a0 = if a < j { a } else { a - 1 };
                    let b0 = if b < j { b } else { b - 1 };
                    assert(p[a] == old_p[a0] && p[b] == old_p[b0]);
                }
            }
        }
        k = k - 1;
    }
    assert(is_stable_sort_by(out@, s, p));
    out
}

/// After the entries of a service (of one account, where a username is
/// given) are removed, none of them remains, every other entry remains in
/// its order, and looking them up finds nothing.
pub proof fn lemma_removed_entries_are_gone(s: Seq<Entry>, service: Seq<char>, username: Option<Seq<char>>)
    ensures
        ({
            let r = s.filter(|e: Entry| !is_selected(e, service, username));
            &&& forall|i: int| 0 <= i < r.len() ==> !is_selected(#[trigger] r[i], service, username)
            &&& forall|i: int| 0 <= i < s.len() && !is_selected(#[trigger] s[i], service, username) ==> r.contains(s[i])
            &&& positions_of(r, service, username).len() == 0
        }),
{
    let keep = |e: Entry| !is_selected(e, service, username);
    let r = s.filter(keep);
    broadcast use vstd::seq_lib::group_filter_ensures;
    assert forall|i: int| 0 <= i < r.len() implies !is_selected(#[trigger] r[i], service, username) by {
        s.lemma_filter_pred(keep, i);
    }
    assert forall|i: int| 0 <= i < s.len() && !is_selected(#[trigger] s[i], service, username) implies r.contains(s[i]) by {
        s.lemma_filter_contains(keep, i);
    }
    lemma_no_positions(r, service, username, r.len() as int);
}

/// Where no entry is selected, no position is.
proof fn lemma_no_positions(s: Seq<Entry>, service: Seq<char>, username: Option<Seq<char>>, n: int)
    requires
        0 <= n <= s.len(),
        forall|i: int| 0 <= i < s.len() ==> !is_selected(#[trigger] s[i], service, username),
    ensures
        selected_positions(s, service, username, n).len() == 0,
    decreases n,
{
    if n > 0 {
        lemma_no_positions(s, service, username, n - 1);
    }
}

/// Looking an account up by service and username finds the first entry for
/// it, as `first_account_index` names it.
proof fn lemma_positions_of_account(s: Seq<Entry>, service: Seq<char>, username: Seq<char>, n: int)
    requires
        0 <= n <= s.len(),
    ensures
        (selected_positions(s, service, Some(username), n).len() > 0) == (first_account_index(
            s,
            service,
            username,
            n,
        ) >= 0),
        selected_positions(s, service, Some(username), n).len() > 0 ==> selected_positions(
            s,
            service,
            Some(username),
            n,
        )[0] == first_account_index(s, service, username, n),
    decreases n,
{
    if n > 0 {
        lemma_positions_of_account(s, service, username, n - 1);
    }
}

/// After an account is saved, looking it up by service and username finds
/// the saved entry, with the saved password, notes and time.
pub proof fn lemma_lookup_after_upsert(
    s: Seq<Entry>,
    service: String,
    username: String,
    password: String,
    notes: Option<String>,
    updated_at: u64,
)
    ensures
        ({
            let r = upserted(s, service, username, password, notes, updated_at);
            let pos = positions_of(r, service@, Some(username@));
            &&& pos.len() > 0
            &&& 0 <= pos[0] < r.len()
            &&& is_account(r[pos[0]], service@, username@)
            &&& r[pos[0]].password == password
            &&& r[pos[0]].notes == notes
            &&& r[pos[0]].updated_at == updated_at
        }),
{
    let r = upserted(s, service, username, password, notes, updated_at);
    let i = account_index(s, service@, username@);
    let k = if i < 0 { s.len() as int } else { i };
    lemma_upsert_saves_account(s, service, username, password, notes, updated_at);
    lemma_account_index(s, service@, username@, s.len() as int);
    lemma_account_index(r, service@, username@, r.len() as int);
    lemma_positions_of_account(r, service@, username@, r.len() as int);
    assert forall|j: int| 0 <= j < k implies !is_account(#[trigger] r[j], service@, username@) by {
        assert(r[j] == s[j]);
    }
    let f = account_index(r, service@, username@);
    assert(f == k) by {
        if f < 0 {
            assert(!is_account(r[k], service@, username@));
        } else if f < k {
            assert(!is_account(r[f], service@, username@));
        } else if f > k {
            assert(!is_account(r[k], service@, username@));
        }
    }
}

/// An account is the pair of a service and a username: saving one adds an
/// entry exactly when no entry has both that service and that username,
/// leaves every entry that is not for both unchanged, and afterwards some
/// entry has that service and username with the saved password, notes and
/// time.
pub proof fn lemma_upsert_keys_on_service_and_username(
    s: Seq<Entry>,
    service: String,
    username: String,
    password: String,
    notes: Option<String>,
    updated_at: u64,
)
    ensures
        ({
            let r = upserted(s, service, username, password, notes, updated_at);
            let absent = forall|j: int|
                0 <= j < s.len() ==> !(#[trigger] s[j].service@ == service@ && s[j].username@
                    == username@);
            &&& (account_index(s, service@, username@) < 0) == absent
            &&& r.len() == (if absent { s.len() + 1int } else { s.len() as int })
            &&& forall|j: int|
                0 <= j < s.len() && (s[j].service@ != service@ || s[j].username@ != username@)
                    ==> #[trigger] r[j] == s[j]
            &&& exists|k: int|
                0 <= k < r.len() && (#[trigger] r[k]).service@ == service@ && r[k].username@
                    == username@ && r[k].password == password && r[k].notes == notes
                    && r[k].updated_at == updated_at
        }),
{
    lemma_account_index(s, service@, username@, s.len() as int);
    lemma_upsert_saves_account(s, service, username, password, notes, updated_at);
    let r = upserted(s, service, username, password, notes, updated_at);
    let i = account_index(s, service@, username@);
    let k = if i < 0 { s.len() as int } else { i };
    assert(r[k].service@ == service@ && r[k].username@ == username@);
    if i >= 0 {
        assert(s[i].service@ == service@ && s[i].username@ == username@);
    }
}

/// Without a username, removal takes exactly the entries whose service is
/// the given one, character for character; with a username, exactly those
/// with both that service and that username. Every other entry stays.
pub proof fn lemma_remove_matches_exactly(s: Seq<Entry>, service: Seq<char>, username: Option<Seq<char>>)
    ensures
        ({
            let r = s.filter(|e: Entry| !is_selected(e, service, username));
            &&& forall|i: int|
                0 <= i < r.len() ==> match username {
                    None => (#[trigger] r[i]).service@ != service,
                    Some(u) => r[i].service@ != service || r[i].username@ != u,
                }
            &&& forall|i: int|
                0 <= i < s.len() && match username {
                    None => (#[trigger] s[i]).service@ != service,
                    Some(u) => s[i].service@ != service || s[i].username@ != u,
                } ==> r.contains(s[i])
        }),
{
    lemma_removed_entries_are_gone(s, service, username);
}

/// The positions of the first `n` entries that a service and optional
/// username select are exactly those entries, each below `n`.
proof fn lemma_selected_positions_exact(
    s: Seq<Entry>,
    service: Seq<char>,
    username: Option<Seq<char>>,
    n: int,
)
    requires
        0 <= n <= s.len(),
    ensures
        forall|i: int|
            0 <= i < selected_positions(s, service, username, n).len() ==> 0 <= #[trigger] selected_positions(
                s,
                service,
                username,
                n,
            )[i] < n,
        forall|k: int|
            0 <= k < n ==> (selected_positions(s, service, username, n).contains(k) == is_selected(
                #[trigger] s[k],
                service,
                username,
            )),
    decreases n,
{
    if n > 0 {
        lemma_selected_positions_exact(s, service, username, n - 1);
        let before = selected_positions(s, service, username, n - 1);
        let after = selected_positions(s, service, username, n);
        assert forall|k: int| 0 <= k < n implies (after.contains(k) == is_selected(
            #[trigger] s[k],
            service,
            username,
        )) by {
            if is_selected(s[n - 1], service, username) {
                assert(after == before.push(n - 1));
                if k == n - 1 {
                    assert(after[before.len() as int] == k);
                } else {
                    if after.contains(k) {
                        let j = choose|j: int| 0 <= j < after.len() && after[j] == k;
                        if j == before.len() {
                        } else {
                            assert(before[j] == k);
                        }
                    }
                    if before.contains(k) {
                        let j = choose|j: int| 0 <= j < before.len() && before[j] == k;
                        assert(after[j] == k);
                    }
                }
            } else {
                if k == n - 1 {
                    if before.contains(k) {
                        let j = choose|j: int| 0 <= j < before.len() && before[j] == k;
                        assert(before[j] < n - 1);
                    }
                }
            }
        }
    }
}

/// Looking entries up finds exactly the entries whose service is the given
/// one, character for character, and, where a username is given, whose
/// username is that one too.
pub proof fn lemma_lookup_matches_exactly(s: Seq<Entry>, service: Seq<char>, username: Option<Seq<char>>)
    ensures
        forall|k: int|
            0 <= k < s.len() ==> (positions_of(s, service, username).contains(k) == ((#[trigger] s[k]).service@
                == service && match username {
                None => true,
                Some(u) => s[k].username@ == u,
            })),
{
    lemma_selected_positions_exact(s, service, username, s.len() as int);
}

} // verus!
