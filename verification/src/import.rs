//! Bringing existing keys from an SSH directory into the vault.

use vstd::prelude::*;
use vstd::string::*;

use crate::bitwarden::{item_views, ItemView, SshKeyItem};
use crate::openssh::{
    private_key_in, public_line_fingerprint, read_private_key, read_public_fingerprint, KeyFacts,
    KeyFactsView,
};
use crate::paths::is_absolute;
use crate::text;

verus! {

// --- which files are keys ---------------------------------------------------

/// Whether a file of this name in an SSH directory is known not to hold a
/// private key.
pub open spec fn is_housekeeping(name: Seq<char>) -> bool {
    ||| text::has_suffix(name, ".pub"@)
    ||| name == "config"@
    ||| name == "authorized_keys"@
    ||| name == "environment"@
    ||| text::has_prefix(name, "known_hosts"@)
}

/// Whether a file of this name is skipped before it is even read: public halves
/// and the housekeeping files of SSH.
pub fn is_non_key_filename(name: &str) -> (r: bool)
    ensures
        r == is_housekeeping(name@),
{
    text::ends_with(name, ".pub") || text::same_text(name, "config") || text::same_text(
        name,
        "authorized_keys",
    ) || text::same_text(name, "environment") || text::starts_with(name, "known_hosts")
}

// --- comments ---------------------------------------------------------------

/// The place of the first whitespace in `s` at or after `from`, or its length.
pub open spec fn next_gap(s: Seq<char>, from: int) -> int
    decreases s.len() - from,
{
    if from >= s.len() {
        s.len() as int
    } else if text::is_whitespace(s[from]) {
        from
    } else {
        next_gap(s, from + 1)
    }
}

/// The comment of an OpenSSH public-key line `<type> <base64> <comment...>`:
/// what follows the second whitespace of the trimmed line, trimmed, unless
/// there is none or nothing is left.
pub open spec fn line_comment(line: Seq<char>) -> Option<Seq<char>> {
    let t = text::trimmed(line);
    let first = next_gap(t, 0);
    let second = next_gap(t, first + 1);
    if second >= t.len() {
        None
    } else {
        let comment = text::trimmed(t.skip(second + 1));
        if comment.len() == 0 {
            None
        } else {
            Some(comment)
        }
    }
}

/// The place of the first whitespace at or after `from`.
fn find_gap(chars: &Vec<char>, from: usize) -> (i: usize)
    requires
        from <= chars.len(),
    ensures
        i == next_gap(chars@, from as int),
        from <= i <= chars.len(),
{
    let mut i: usize = from;
    while i < chars.len() && !text::is_whitespace_char(chars[i])
        invariant
            from <= i <= chars.len(),
            next_gap(chars@, from as int) == next_gap(chars@, i as int),
        decreases chars.len() - i,
    {
        i = i + 1;
    }
    i
}

/// The trailing comment of an OpenSSH public-key line, if it has one.
pub fn comment_from_pub_line(line: &str) -> (r: Option<String>)
    ensures
        text::text_of(r) == line_comment(line@),
{
    let t = text::trim(line);
    let chars = text::chars_of(t.as_str());
    let first = find_gap(&chars, 0);
    if first >= chars.len() {
        return None;
    }
    let second = find_gap(&chars, first + 1);
    if second >= chars.len() {
        return None;
    }
    assert(t@.subrange(second + 1, t@.len() as int) == t@.skip(second + 1));
    let comment = text::trim(t.as_str().substring_char(second + 1, chars.len()));
    if comment.as_str().is_empty() {
        None
    } else {
        Some(comment)
    }
}

// --- the keys of a directory ------------------------------------------------

/// A file of an SSH directory, as far as it was read.
pub struct Entry {
    /// Where the file is.
    pub path: Vec<u8>,
    /// The last part of the path, where it is text.
    pub name: Option<String>,
    /// Whether it is a file, and not a directory or the like.
    pub is_file: bool,
    /// What it holds, where it could be read as text.
    pub contents: Option<String>,
    /// What the file of its public half holds, where there is one.
    pub public_file: Option<String>,
}

/// The contents of an [`Entry`].
pub struct EntryView {
    pub path: Seq<u8>,
    pub name: Option<Seq<char>>,
    pub is_file: bool,
    pub contents: Option<Seq<char>>,
    pub public_file: Option<Seq<char>>,
}

impl View for Entry {
    type V = EntryView;

    open spec fn view(&self) -> EntryView {
        EntryView {
            path: self.path@,
            name: text::text_of(self.name),
            is_file: self.is_file,
            contents: text::text_of(self.contents),
            public_file: text::text_of(self.public_file),
        }
    }
}

/// A private key found in an SSH directory.
pub struct Candidate {
    /// Where its file is, from the root on.
    pub path: Vec<u8>,
    /// The algorithm as OpenSSH names it (`ssh-ed25519`, `ssh-rsa`, ...).
    pub algorithm: String,
    /// The `SHA256:...` fingerprint of its public half.
    pub fingerprint: String,
    /// What the user calls it, if anything.
    pub comment: String,
    /// Its public half as an OpenSSH line.
    pub public_openssh: String,
    /// What its file holds; still encrypted, if the key is.
    pub private_pem: String,
    /// Whether it is protected by a passphrase.
    pub encrypted: bool,
}

/// The contents of a [`Candidate`].
pub struct CandidateView {
    pub path: Seq<u8>,
    pub algorithm: Seq<char>,
    pub fingerprint: Seq<char>,
    pub comment: Seq<char>,
    pub public_openssh: Seq<char>,
    pub private_pem: Seq<char>,
    pub encrypted: bool,
}

impl View for Candidate {
    type V = CandidateView;

    open spec fn view(&self) -> CandidateView {
        CandidateView {
            path: self.path@,
            algorithm: self.algorithm@,
            fingerprint: self.fingerprint@,
            comment: self.comment@,
            public_openssh: self.public_openssh@,
            private_pem: self.private_pem@,
            encrypted: self.encrypted,
        }
    }
}

/// The contents of candidates.
pub open spec fn candidate_views(candidates: Seq<Candidate>) -> Seq<CandidateView> {
    candidates.map_values(|c: Candidate| c@)
}

/// The contents of entries.
pub open spec fn entry_views(entries: Seq<Entry>) -> Seq<EntryView> {
    entries.map_values(|e: Entry| e@)
}

impl Candidate {
    /// The algorithm, as it is shown.
    pub fn algo_label(&self) -> (r: &str)
        ensures
            r@ == self@.algorithm,
    {
        self.algorithm.as_str()
    }
}

/// What a key is called: what the file of its public half says, else what the
/// key itself says.
pub open spec fn key_comment(public_file: Option<Seq<char>>, embedded: Seq<char>) -> Seq<char> {
    match public_file {
        Some(line) => match line_comment(line) {
            Some(comment) => comment,
            None => text::trimmed(embedded),
        },
        None => text::trimmed(embedded),
    }
}

/// The candidate that a key file makes, if its public half can be written.
pub open spec fn candidate_from(
    path: Seq<u8>,
    contents: Seq<char>,
    facts: KeyFactsView,
    public_file: Option<Seq<char>>,
) -> Option<CandidateView> {
    match facts.public_line {
        None => None,
        Some(line) => Some(
            CandidateView {
                path,
                algorithm: facts.algorithm,
                fingerprint: facts.fingerprint,
                comment: key_comment(public_file, facts.comment),
                public_openssh: line,
                private_pem: contents,
                encrypted: facts.encrypted,
            },
        ),
    }
}

/// Builds a candidate from a key file, from what was read off the key in it, and
/// from the file of its public half.
pub fn build_candidate(
    path: Vec<u8>,
    contents: String,
    facts: KeyFacts,
    public_file: Option<String>,
) -> (r: Option<Candidate>)
    ensures
        match r {
            Some(c) => Some(c@),
            None => None,
        } == candidate_from(path@, contents@, facts@, text::text_of(public_file)),
{
    let public_openssh = match facts.public_line {
        Some(line) => line,
        None => {
            return None;
        },
    };
    let named = match public_file {
        Some(line) => comment_from_pub_line(line.as_str()),
        None => None,
    };
    let comment = match named {
        Some(comment) => comment,
        None => text::trim(facts.comment.as_str()),
    };
    Some(
        Candidate {
            path,
            algorithm: facts.algorithm,
            fingerprint: facts.fingerprint,
            comment,
            public_openssh,
            private_pem: contents,
            encrypted: facts.encrypted,
        },
    )
}

/// Whether a file is worth reading at all.
pub open spec fn may_be_key(name: Option<Seq<char>>, is_file: bool) -> bool {
    is_file && match name {
        Some(n) => !is_housekeeping(n),
        None => false,
    }
}

/// Whether a file is worth reading at all: it is one, and its name is text and
/// not that of a housekeeping file.
pub fn is_worth_reading(name: &Option<String>, is_file: bool) -> (r: bool)
    ensures
        r == may_be_key(text::text_of(*name), is_file),
{
    match name {
        Some(n) => is_file && !is_non_key_filename(n.as_str()),
        None => false,
    }
}

/// The candidate that an entry makes, if it holds a private key.
pub open spec fn analyzed(entry: EntryView) -> Option<CandidateView> {
    if may_be_key(entry.name, entry.is_file) {
        match entry.contents {
            None => None,
            Some(contents) => match private_key_in(contents) {
                Err(_) => None,
                Ok(facts) => candidate_from(entry.path, contents, facts, entry.public_file),
            },
        }
    } else {
        None
    }
}

/// Whether a candidate's line of its public half, where it can be read, is read
/// as a key with the candidate's own fingerprint. A space in the name of the
/// algorithm would have the line read as another key.
pub open spec fn is_consistent(c: CandidateView) -> bool {
    !c.algorithm.contains(' ') ==> (public_line_fingerprint(c.public_openssh) is Some
        ==> public_line_fingerprint(c.public_openssh) == Some(c.fingerprint))
}

/// Reads a file as an OpenSSH private key. What is no such key is passed over,
/// and so is one that cannot be read.
pub fn analyze_file(entry: Entry) -> (r: Option<Candidate>)
    ensures
        match r {
            Some(c) => Some(c@),
            None => None,
        } == analyzed(entry@),
        r matches Some(c) ==> is_consistent(c@),
{
    if !is_worth_reading(&entry.name, entry.is_file) {
        return None;
    }
    match entry.contents {
        None => None,
        Some(contents) => match read_private_key(contents.as_str()) {
            Err(_) => None,
            Ok(facts) => build_candidate(entry.path, contents, facts, entry.public_file),
        },
    }
}

/// The candidates among entries, in the order of the entries.
pub open spec fn found(entries: Seq<EntryView>) -> Seq<CandidateView>
    decreases entries.len(),
{
    if entries.len() == 0 {
        Seq::empty()
    } else {
        let before = found(entries.drop_last());
        match analyzed(entries.last()) {
            Some(c) => before.push(c),
            None => before,
        }
    }
}

// --- the order of paths -----------------------------------------------------

/// Whether path `a` comes before path `b`: byte by byte, and a path before
/// those that go on where it ends.
pub open spec fn before(a: Seq<u8>, b: Seq<u8>) -> bool
    decreases a.len(),
{
    if b.len() == 0 {
        false
    } else if a.len() == 0 {
        true
    } else if a[0] == b[0] {
        before(a.skip(1), b.skip(1))
    } else {
        a[0] < b[0]
    }
}

/// No path comes both before and after another.
proof fn before_is_one_way(a: Seq<u8>, b: Seq<u8>)
    requires
        before(a, b),
    ensures
        !before(b, a),
    decreases a.len(),
{
    if a.len() > 0 && a[0] == b[0] {
        before_is_one_way(a.skip(1), b.skip(1));
    }
}

/// A path that is not after a second, which is not after a third, is not after
/// the third.
proof fn before_carries_over(a: Seq<u8>, b: Seq<u8>, c: Seq<u8>)
    requires
        !before(b, a),
        !before(c, b),
    ensures
        !before(c, a),
    decreases a.len(),
{
    if a.len() > 0 && b.len() > 0 && c.len() > 0 && a[0] == b[0] && b[0] == c[0] {
        before_carries_over(a.skip(1), b.skip(1), c.skip(1));
    }
}

/// Of two paths that differ, one comes before the other.
proof fn before_tells_paths_apart(a: Seq<u8>, b: Seq<u8>)
    requires
        !before(a, b),
        !before(b, a),
    ensures
        a == b,
    decreases a.len(),
{
    if a.len() > 0 && b.len() > 0 {
        before_tells_paths_apart(a.skip(1), b.skip(1));
        assert(a =~= seq![a[0]] + a.skip(1));
        assert(b =~= seq![b[0]] + b.skip(1));
    } else {
        assert(a =~= b);
    }
}

/// Whether path `a` comes before path `b`.
fn comes_before(a: &Vec<u8>, b: &Vec<u8>) -> (r: bool)
    ensures
        r == before(a@, b@),
{
    let mut i: usize = 0;
    assert(a@.skip(0) == a@ && b@.skip(0) == b@);
    while i < a.len() && i < b.len() && a[i] == b[i]
        invariant
            i <= a.len(),
            i <= b.len(),
            before(a@, b@) == before(a@.skip(i as int), b@.skip(i as int)),
        decreases a.len() - i,
    {
        assert(a@.skip(i as int).skip(1) == a@.skip(i + 1));
        assert(b@.skip(i as int).skip(1) == b@.skip(i + 1));
        i = i + 1;
    }
    if i >= b.len() {
        false
    } else if i >= a.len() {
        true
    } else {
        a[i] < b[i]
    }
}

/// Whether candidates stand in the order of their paths.
pub open spec fn in_order(candidates: Seq<CandidateView>) -> bool {
    forall|i: int, j: int|
        #![trigger candidates[i], candidates[j]]
        0 <= i < j < candidates.len() ==> !before(candidates[j].path, candidates[i].path)
}

/// Those candidates that were found at `path`.
pub open spec fn found_at(candidates: Seq<CandidateView>, path: Seq<u8>) -> Seq<CandidateView> {
    candidates.filter(|c: CandidateView| c.path == path)
}

/// Nothing is found at a path that no candidate has.
proof fn nothing_found_at(s: Seq<CandidateView>, path: Seq<u8>)
    requires
        forall|j: int| 0 <= j < s.len() ==> (#[trigger] s[j]).path != path,
    ensures
        found_at(s, path) == Seq::<CandidateView>::empty(),
    decreases s.len(),
{
    reveal(Seq::filter);
    if s.len() > 0 {
        nothing_found_at(s.drop_last(), path);
    }
}

/// A candidate put behind those that are not after it, and before the rest, is
/// the last of those found at its path.
proof fn insertion_keeps_order(s: Seq<CandidateView>, k: int, c: CandidateView)
    requires
        in_order(s),
        0 <= k <= s.len(),
        k > 0 ==> !before(c.path, s[k - 1].path),
        forall|j: int| k <= j < s.len() ==> before(c.path, #[trigger] s[j].path),
    ensures
        in_order(s.insert(k, c)),
        forall|path: Seq<u8>|
            #![trigger found_at(s.insert(k, c), path)]
            found_at(s.insert(k, c), path) == if c.path == path {
                found_at(s, path).push(c)
            } else {
                found_at(s, path)
            },
        s.insert(k, c).to_multiset() == s.to_multiset().insert(c),
{
    let t = s.insert(k, c);
    assert forall|i: int, j: int|
        #![trigger t[i], t[j]]
        0 <= i < j < t.len() implies !before(t[j].path, t[i].path) by {
        if j < k {
            assert(t[i] == s[i] && t[j] == s[j]);
        } else if j == k {
            assert(t[i] == s[i] && t[j] == c);
            if i < k - 1 {
                before_carries_over(s[i].path, s[k - 1].path, c.path);
            }
        } else {
            assert(t[j] == s[j - 1]);
            if i < k {
                assert(t[i] == s[i]);
            } else if i == k {
                before_is_one_way(c.path, s[j - 1].path);
            } else {
                assert(t[i] == s[i - 1]);
            }
        }
    }
    let head = s.take(k);
    let tail = s.skip(k);
    assert(s =~= head + tail);
    assert(t =~= head.push(c) + tail);
    assert forall|path: Seq<u8>|
        #![trigger found_at(t, path)]
        found_at(t, path) == if c.path == path {
            found_at(s, path).push(c)
        } else {
            found_at(s, path)
        } by {
        let pred = |x: CandidateView| x.path == path;
        Seq::filter_distributes_over_add(head.push(c), tail, pred);
        Seq::filter_distributes_over_add(head, tail, pred);
        assert(head.push(c).drop_last() =~= head);
        reveal(Seq::filter);
        if c.path == path {
            assert forall|j: int| 0 <= j < tail.len() implies (#[trigger] tail[j]).path != path by {
                assert(tail[j] == s[k + j]);
                before_is_one_way(c.path, s[k + j].path);
            }
            nothing_found_at(tail, path);
        }
    }
    broadcast use vstd::seq_lib::group_to_multiset_ensures;

    assert(t =~= s.insert(k, c));
}

/// The private keys among the files of one directory, in the order of their
/// paths. Whatever is no private key is passed over. The paths of the keys begin
/// at the root where those of the files do.
pub fn scan_dir(entries: Vec<Entry>) -> (r: Vec<Candidate>)
    ensures
        in_order(candidate_views(r@)),
        forall|path: Seq<u8>| #[trigger]
            found_at(candidate_views(r@), path) == found_at(found(entry_views(entries@)), path),
        candidate_views(r@).to_multiset() == found(entry_views(entries@)).to_multiset(),
        forall|i: int| 0 <= i < r@.len() ==> is_consistent(#[trigger] r@[i]@),
        (forall|j: int| 0 <= j < entries@.len() ==> is_absolute((#[trigger] entries@[j])@.path))
            ==> forall|i: int| 0 <= i < r@.len() ==> is_absolute((#[trigger] r@[i])@.path),
{
    let ghost rooted = forall|j: int|
        0 <= j < entries@.len() ==> is_absolute((#[trigger] entries@[j])@.path);
    let ghost all = entry_views(entries@);
    let mut r: Vec<Candidate> = Vec::new();
    assert(candidate_views(r@) =~= found(all.take(0)));
    for entry in it: entries
        invariant
            all == entry_views(it.seq()),
            in_order(candidate_views(r@)),
            forall|path: Seq<u8>| #[trigger]
                found_at(candidate_views(r@), path) == found_at(
                    found(all.take(it.index() as int)),
                    path,
                ),
            candidate_views(r@).to_multiset() == found(all.take(it.index() as int)).to_multiset(),
            forall|i: int| 0 <= i < r@.len() ==> is_consistent(#[trigger] r@[i]@),
            rooted ==> forall|j: int|
                0 <= j < it.seq().len() ==> is_absolute((#[trigger] it.seq()[j])@.path),
            rooted ==> forall|i: int| 0 <= i < r@.len() ==> is_absolute((#[trigger] r@[i])@.path),
    {
        let ghost seen = all.take(it.index() as int);
        let ghost now = all.take(it.index() + 1);
        assert(now.drop_last() == seen);
        assert(now.last() == entry@);
        match analyze_file(entry) {
            Some(c) => {
                let ghost s = candidate_views(r@);
                let mut k: usize = r.len();
                while k > 0 && comes_before(&c.path, &r[k - 1].path)
                    invariant
                        k <= r.len(),
                        s == candidate_views(r@),
                        forall|j: int| k <= j < s.len() ==> before(c@.path, #[trigger] s[j].path),
                    decreases k,
                {
                    k = k - 1;
                }
                let ghost view = c@;
                proof {
                    insertion_keeps_order(s, k as int, view);
                    broadcast use vstd::seq_lib::group_to_multiset_ensures;

                    assert forall|path: Seq<u8>|
                        #![trigger found_at(found(now), path)]
                        found_at(found(now), path) == if view.path == path {
                            found_at(found(seen), path).push(view)
                        } else {
                            found_at(found(seen), path)
                        } by {
                        reveal(Seq::filter);
                        assert(found(now).drop_last() == found(seen));
                    }
                    assert(found(now) == found(seen).push(view));
                }
                r.insert(k, c);
                assert(candidate_views(r@) =~= s.insert(k as int, view));
            },
            None => {},
        }
    }
    assert(all.take(all.len() as int) == all);
    r
}

/// Overwrites what was read of the private keys.
pub fn scrub(candidates: &mut Vec<Candidate>)
    ensures
        candidate_views(final(candidates)@) == candidate_views(old(candidates)@).map_values(
            |c: CandidateView| CandidateView { private_pem: Seq::empty(), ..c },
        ),
{
    let ghost all = candidate_views(candidates@);
    let mut i: usize = 0;
    while i < candidates.len()
        invariant
            i <= candidates.len(),
            all.len() == candidates.len(),
            forall|j: int|
                0 <= j < i ==> (#[trigger] candidates@[j])@ == (CandidateView {
                    private_pem: Seq::empty(),
                    ..all[j]
                }),
            forall|j: int| i <= j < all.len() ==> (#[trigger] candidates@[j])@ == all[j],
        decreases candidates.len() - i,
    {
        text::wipe_text(&mut candidates[i].private_pem);
        i = i + 1;
    }
}

// --- the keys that the vault has already ------------------------------------

/// An SSH key of the vault, with the fingerprint by which it is found.
pub struct VaultKeyRef {
    /// The id of the vault's item.
    pub id: String,
    /// The name of the vault's item.
    pub name: String,
    /// The `SHA256:...` fingerprint of its public half.
    pub fingerprint: String,
}

/// The contents of a [`VaultKeyRef`].
pub struct VaultKeyRefView {
    pub id: Seq<char>,
    pub name: Seq<char>,
    pub fingerprint: Seq<char>,
}

impl View for VaultKeyRef {
    type V = VaultKeyRefView;

    open spec fn view(&self) -> VaultKeyRefView {
        VaultKeyRefView {
            id: self.id@,
            name: self.name@,
            fingerprint: self.fingerprint@,
        }
    }
}

/// The contents of an index of the vault.
pub open spec fn ref_views(index: Seq<VaultKeyRef>) -> Seq<VaultKeyRefView> {
    index.map_values(|r: VaultKeyRef| r@)
}

/// The fingerprint of an OpenSSH public-key line, in the form in which those of
/// candidates are given.
pub fn fingerprint_of_public(public_openssh: &str) -> (r: Option<String>)
    ensures
        text::text_of(r) == public_line_fingerprint(public_openssh@),
{
    read_public_fingerprint(public_openssh)
}

/// The fingerprint by which an item of the vault is found: the one computed from
/// its public half, else the one that it holds.
pub open spec fn index_fingerprint(
    computed: Option<Seq<char>>,
    stored: Option<Seq<char>>,
) -> Option<Seq<char>> {
    match computed {
        Some(fingerprint) => Some(fingerprint),
        None => stored,
    }
}

/// The place of an item in the index, given the fingerprint that was computed
/// from its public half, if one could be.
pub open spec fn ref_for(item: ItemView, computed: Option<Seq<char>>) -> Option<VaultKeyRefView> {
    match index_fingerprint(computed, item.key_fingerprint) {
        Some(fingerprint) => Some(VaultKeyRefView { id: item.id, name: item.name, fingerprint }),
        None => None,
    }
}

/// The place of an item in the index, given the fingerprint that was computed
/// from its public half, if one could be.
pub fn index_item(item: &SshKeyItem, computed: Option<String>) -> (r: Option<VaultKeyRef>)
    ensures
        match r {
            Some(v) => Some(v@),
            None => None,
        } == ref_for(item@, text::text_of(computed)),
{
    let fingerprint = match computed {
        Some(fingerprint) => fingerprint,
        None => match &item.ssh_key.key_fingerprint {
            Some(stored) => stored.clone(),
            None => {
                return None;
            },
        },
    };
    Some(VaultKeyRef { id: item.id.clone(), name: item.name.clone(), fingerprint })
}

/// The index of the vault's items, by fingerprint. An item without one is left
/// out.
pub open spec fn vault_index(items: Seq<ItemView>) -> Seq<VaultKeyRefView>
    decreases items.len(),
{
    if items.len() == 0 {
        Seq::empty()
    } else {
        let rest = vault_index(items.drop_last());
        match ref_for(items.last(), public_line_fingerprint(items.last().public_key)) {
            Some(v) => rest.push(v),
            None => rest,
        }
    }
}

/// Indexes the SSH keys that the vault has already.
pub fn index_vault_keys(items: &Vec<SshKeyItem>) -> (r: Vec<VaultKeyRef>)
    ensures
        ref_views(r@) == vault_index(item_views(items@)),
{
    let mut refs: Vec<VaultKeyRef> = Vec::new();
    let ghost all = item_views(items@);
    assert(ref_views(refs@) =~= vault_index(all.take(0)));
    let mut i: usize = 0;
    while i < items.len()
        invariant
            i <= items.len(),
            all == item_views(items@),
            ref_views(refs@) == vault_index(all.take(i as int)),
        decreases items.len() - i,
    {
        let ghost rest = ref_views(refs@);
        assert(all.take(i + 1).drop_last() == all.take(i as int));
        assert(all.take(i + 1).last() == items@[i as int]@);
        let computed = fingerprint_of_public(items[i].ssh_key.public_key.as_str());
        match index_item(&items[i], computed) {
            Some(v) => {
                refs.push(v);
                assert(ref_views(refs@) =~= rest.push(v@));
            },
            None => {},
        }
        i = i + 1;
    }
    assert(all.take(all.len() as int) == all);
    refs
}

/// The first key of the index that has this fingerprint, if any.
pub open spec fn first_match(index: Seq<VaultKeyRefView>, fingerprint: Seq<char>) -> Option<
    VaultKeyRefView,
>
    decreases index.len(),
{
    if index.len() == 0 {
        None
    } else if index[0].fingerprint == fingerprint {
        Some(index[0])
    } else {
        first_match(index.skip(1), fingerprint)
    }
}

/// The contents of a key of the index, if there is one.
pub open spec fn held_view(held: Option<&VaultKeyRef>) -> Option<VaultKeyRefView> {
    match held {
        Some(v) => Some(v@),
        None => None,
    }
}

/// The key of the vault that has this fingerprint, if any.
pub fn find_vault_match<'a>(index: &'a Vec<VaultKeyRef>, fingerprint: &str) -> (r: Option<
    &'a VaultKeyRef,
>)
    ensures
        held_view(r) == first_match(ref_views(index@), fingerprint@),
{
    let ghost all = ref_views(index@);
    assert(all.skip(0) == all);
    let mut i: usize = 0;
    while i < index.len()
        invariant
            i <= index.len(),
            all == ref_views(index@),
            first_match(all, fingerprint@) == first_match(all.skip(i as int), fingerprint@),
        decreases index.len() - i,
    {
        if text::same_text(index[i].fingerprint.as_str(), fingerprint) {
            return Some(&index[i]);
        }
        assert(all.skip(i as int).skip(1) == all.skip(i + 1));
        i = i + 1;
    }
    None
}

// --- what the user is shown -------------------------------------------------

/// What is said of a candidate that the vault has already.
pub open spec fn held_note(held: Option<VaultKeyRefView>) -> Seq<char> {
    match held {
        Some(v) => "  (already in the vault as '"@ + v.name + "')"@,
        None => ""@,
    }
}

/// A line of the list of candidates.
pub open spec fn candidate_line(c: CandidateView, held: Option<VaultKeyRefView>) -> Seq<char> {
    "  "@ + text::utf8_lossy(c.path) + "  ["@ + c.algorithm + "]  "@ + c.fingerprint + "  "@
        + c.comment + (if c.encrypted {
        "  (passphrase-protected)"@
    } else {
        ""@
    }) + held_note(held)
}

/// How a candidate is shown: where it is, its algorithm and fingerprint, what
/// it is called, whether it has a passphrase, and whether the vault has it.
pub fn describe(c: &Candidate, held: Option<&VaultKeyRef>) -> (r: String)
    ensures
        r@ == candidate_line(c@, held_view(held)),
{
    let path = text::from_utf8_lossy(c.path.as_slice());
    let key = text::cat5("  ", path.as_str(), "  [", c.algo_label(), "]  ");
    let named = text::cat4(key.as_str(), c.fingerprint.as_str(), "  ", c.comment.as_str());
    let passphrase = if c.encrypted {
        "  (passphrase-protected)"
    } else {
        ""
    };
    let note = match held {
        Some(v) => text::cat3("  (already in the vault as '", v.name.as_str(), "')"),
        None => "".to_owned(),
    };
    text::cat3(named.as_str(), passphrase, note.as_str())
}

/// What the list of candidates in `dir` begins with.
pub open spec fn heading(dir: Seq<u8>, count: nat) -> Seq<char> {
    if count == 0 {
        "No SSH private keys found in "@ + text::utf8_lossy(dir) + "."@
    } else {
        "Found "@ + text::decimal(count) + " candidate key(s):"@
    }
}

/// What the user is shown of the keys in `dir`: a heading, and a line for each.
pub open spec fn report_lines(
    dir: Seq<u8>,
    candidates: Seq<CandidateView>,
    index: Seq<VaultKeyRefView>,
) -> Seq<Seq<char>> {
    seq![heading(dir, candidates.len())] + Seq::new(
        candidates.len(),
        |i: int| candidate_line(candidates[i], first_match(index, candidates[i].fingerprint)),
    )
}

/// What the user is shown of the keys in `dir`: a heading, and a line for each.
pub fn report(dir: &Vec<u8>, candidates: &Vec<Candidate>, index: &Vec<VaultKeyRef>) -> (r: Vec<
    String,
>)
    ensures
        text::texts(r@) == report_lines(dir@, candidate_views(candidates@), ref_views(index@)),
{
    let first = if candidates.len() == 0 {
        let shown = text::from_utf8_lossy(dir.as_slice());
        text::cat3("No SSH private keys found in ", shown.as_str(), ".")
    } else {
        let count = text::decimal_text(candidates.len() as u64);
        text::cat3("Found ", count.as_str(), " candidate key(s):")
    };
    let ghost all = candidate_views(candidates@);
    let ghost whole = report_lines(dir@, all, ref_views(index@));
    let mut lines: Vec<String> = vec![first];
    assert(text::texts(lines@) =~= whole.take(1));
    let mut i: usize = 0;
    while i < candidates.len()
        invariant
            i <= candidates.len(),
            all == candidate_views(candidates@),
            whole == report_lines(dir@, all, ref_views(index@)),
            text::texts(lines@) == whole.take(i + 1),
        decreases candidates.len() - i,
    {
        let ghost shown = text::texts(lines@);
        let c = &candidates[i];
        let line = describe(c, find_vault_match(index, c.fingerprint.as_str()));
        lines.push(line);
        assert(text::texts(lines@) =~= shown.push(line@));
        assert(whole.take(i + 2) =~= shown.push(whole[i + 1]));
        i = i + 1;
    }
    assert(whole.take(whole.len() as int) == whole);
    lines
}

// --- laws -------------------------------------------------------------------

/// A file that holds no key changes nothing about the keys that are found in the
/// others.
pub proof fn odd_files_change_nothing(entries: Seq<EntryView>, i: int)
    requires
        0 <= i < entries.len(),
        analyzed(entries[i]) is None,
    ensures
        found(entries.remove(i)) == found(entries),
    decreases entries.len(),
{
    let rest = entries.remove(i);
    if i == entries.len() - 1 {
        assert(rest =~= entries.drop_last());
    } else {
        odd_files_change_nothing(entries.drop_last(), i);
        assert(rest.drop_last() =~= entries.drop_last().remove(i));
        assert(rest.last() == entries.last());
    }
}

/// What was found at the path of the last candidate ends with that candidate,
/// and what was found at any other path was found without it.
proof fn last_candidate_is_found_last(s: Seq<CandidateView>, path: Seq<u8>)
    requires
        s.len() > 0,
    ensures
        found_at(s, path) == if s.last().path == path {
            found_at(s.drop_last(), path).push(s.last())
        } else {
            found_at(s.drop_last(), path)
        },
{
    reveal(Seq::filter);
}

/// Whatever was found at a path stands somewhere in the list.
proof fn what_is_found_is_there(s: Seq<CandidateView>, path: Seq<u8>) -> (i: int)
    requires
        found_at(s, path).len() > 0,
    ensures
        0 <= i < s.len(),
        s[i].path == path,
    decreases s.len(),
{
    reveal(Seq::filter);
    if s.last().path == path {
        s.len() - 1
    } else {
        what_is_found_is_there(s.drop_last(), path)
    }
}

/// The last of two lists in order that hold the same at each path is the same.
proof fn the_last_is_the_same(a: Seq<CandidateView>, b: Seq<CandidateView>)
    requires
        in_order(a),
        in_order(b),
        forall|path: Seq<u8>| #[trigger] found_at(a, path) == found_at(b, path),
        a.len() > 0,
        b.len() > 0,
    ensures
        a.last() == b.last(),
{
    let p = a.last().path;
    let q = b.last().path;
    last_candidate_is_found_last(a, p);
    last_candidate_is_found_last(b, q);
    assert(found_at(a, p) == found_at(b, p));
    assert(found_at(a, q) == found_at(b, q));
    let i = what_is_found_is_there(b, p);
    let j = what_is_found_is_there(a, q);
    assert(b[i].path == p && b[b.len() - 1].path == q);
    assert(a[j].path == q && a[a.len() - 1].path == p);
    if i < b.len() - 1 && j < a.len() - 1 {
        assert(!before(b[b.len() - 1].path, b[i].path));
        assert(!before(a[a.len() - 1].path, a[j].path));
        before_tells_paths_apart(p, q);
    }
    assert(p == q);
    assert(found_at(a, p).last() == a.last());
    assert(found_at(b, p).last() == b.last());
}

/// The list of candidates does not depend on the order in which the directory
/// was read: two lists in order that hold the same at each path are the same.
pub proof fn the_order_of_reading_does_not_matter(a: Seq<CandidateView>, b: Seq<CandidateView>)
    requires
        in_order(a),
        in_order(b),
        forall|path: Seq<u8>| #[trigger] found_at(a, path) == found_at(b, path),
    ensures
        a == b,
    decreases a.len(),
{
    if a.len() == 0 {
        if b.len() > 0 {
            last_candidate_is_found_last(b, b.last().path);
            nothing_found_at(a, b.last().path);
            assert(found_at(a, b.last().path) == found_at(b, b.last().path));
        }
        assert(a =~= b);
    } else if b.len() == 0 {
        last_candidate_is_found_last(a, a.last().path);
        nothing_found_at(b, a.last().path);
        assert(found_at(a, a.last().path) == found_at(b, a.last().path));
    } else {
        the_last_is_the_same(a, b);
        assert forall|path: Seq<u8>| #[trigger]
            found_at(a.drop_last(), path) == found_at(b.drop_last(), path) by {
            last_candidate_is_found_last(a, path);
            last_candidate_is_found_last(b, path);
            assert(found_at(a, path) == found_at(b, path));
            if a.last().path == path {
                assert(found_at(a, path).drop_last() =~= found_at(a.drop_last(), path));
                assert(found_at(b, path).drop_last() =~= found_at(b.drop_last(), path));
            }
        }
        the_order_of_reading_does_not_matter(a.drop_last(), b.drop_last());
        assert(a =~= a.drop_last().push(a.last()));
        assert(b =~= b.drop_last().push(b.last()));
    }
}

/// A housekeeping file of SSH, a directory or a file that is not text is never
/// taken for a key, whatever it holds.
pub proof fn noise_is_never_a_key(entry: EntryView)
    ensures
        !entry.is_file ==> analyzed(entry) is None,
        entry.name is None ==> analyzed(entry) is None,
        entry.contents is None ==> analyzed(entry) is None,
        (entry.name matches Some(name) && is_housekeeping(name)) ==> analyzed(entry) is None,
        (entry.contents matches Some(c) && private_key_in(c) is Err) ==> analyzed(entry) is None,
{
}

/// A key with a passphrase is found like any other, and is told apart.
pub proof fn protected_keys_are_found_and_told_apart(entry: EntryView, facts: KeyFactsView)
    requires
        may_be_key(entry.name, entry.is_file),
        entry.contents matches Some(c) && (private_key_in(c) matches Ok(f) && f == facts),
        facts.public_line is Some,
    ensures
        analyzed(entry) matches Some(c) && c.encrypted == facts.encrypted && c.fingerprint
            == facts.fingerprint,
{
}

/// The index holds something with an item's fingerprint, if it has one.
proof fn every_item_is_indexed(items: Seq<ItemView>, i: int) -> (k: int)
    requires
        0 <= i < items.len(),
        ref_for(items[i], public_line_fingerprint(items[i].public_key)) is Some,
    ensures
        0 <= k < vault_index(items).len(),
        Some(vault_index(items)[k]) == ref_for(
            items[i],
            public_line_fingerprint(items[i].public_key),
        ),
    decreases items.len(),
{
    if i == items.len() - 1 {
        vault_index(items).len() - 1
    } else {
        let k = every_item_is_indexed(items.drop_last(), i);
        assert(vault_index(items)[k] == vault_index(items.drop_last())[k]);
        k
    }
}

/// A match is found wherever there is one, and has the fingerprint looked for.
proof fn a_match_is_found(index: Seq<VaultKeyRefView>, fingerprint: Seq<char>)
    ensures
        first_match(index, fingerprint) is Some <==> exists|k: int|
            0 <= k < index.len() && (#[trigger] index[k]).fingerprint == fingerprint,
        first_match(index, fingerprint) matches Some(v) ==> v.fingerprint == fingerprint
            && index.contains(v),
    decreases index.len(),
{
    if index.len() > 0 && index[0].fingerprint != fingerprint {
        let rest = index.skip(1);
        a_match_is_found(rest, fingerprint);
        assert forall|k: int| 0 <= k < rest.len() implies rest[k] == #[trigger] index[k + 1] by {}
        if exists|k: int| 0 <= k < index.len() && (#[trigger] index[k]).fingerprint == fingerprint {
            let k = choose|k: int|
                0 <= k < index.len() && (#[trigger] index[k]).fingerprint == fingerprint;
            assert(rest[k - 1].fingerprint == fingerprint);
        }
        if first_match(index, fingerprint) is Some {
            let v = first_match(rest, fingerprint)->0;
            let k = choose|k: int| 0 <= k < rest.len() && rest[k] == v;
            assert(index[k + 1] == v);
        }
    }
}

/// A candidate whose public half the vault holds is found in the vault, under
/// whatever name it is kept there, if the name of its algorithm holds no space (as
/// SSH asks of such names).
pub proof fn a_key_in_the_vault_is_recognized(c: CandidateView, items: Seq<ItemView>, i: int)
    requires
        is_consistent(c),
        !c.algorithm.contains(' '),
        0 <= i < items.len(),
        items[i].public_key == c.public_openssh,
        public_line_fingerprint(c.public_openssh) is Some,
    ensures
        first_match(vault_index(items), c.fingerprint) matches Some(v) && v.fingerprint
            == c.fingerprint,
{
    let k = every_item_is_indexed(items, i);
    assert(vault_index(items)[k].fingerprint == c.fingerprint);
    a_match_is_found(vault_index(items), c.fingerprint);
}

/// What the index holds comes from an item of the vault.
proof fn index_entries_come_from_items(items: Seq<ItemView>, v: VaultKeyRefView)
    requires
        vault_index(items).contains(v),
    ensures
        exists|i: int|
            0 <= i < items.len() && #[trigger] ref_for(
                items[i],
                public_line_fingerprint(items[i].public_key),
            ) == Some(v),
    decreases items.len(),
{
    if items.len() > 0 {
        let rest = items.drop_last();
        if vault_index(rest).contains(v) {
            index_entries_come_from_items(rest, v);
            let i = choose|i: int|
                0 <= i < rest.len() && #[trigger] ref_for(
                    rest[i],
                    public_line_fingerprint(rest[i].public_key),
                ) == Some(v);
            assert(items[i] == rest[i]);
        } else {
            let k = choose|k: int| 0 <= k < vault_index(items).len() && vault_index(items)[k] == v;
            if k < vault_index(rest).len() {
                assert(vault_index(rest)[k] == v);
            }
            let last = items.len() - 1;
            assert(ref_for(items[last], public_line_fingerprint(items[last].public_key)) == Some(v));
        }
    }
}

/// A candidate is taken for a key of the vault only where an item of the vault
/// has its fingerprint, and then for such an item.
pub proof fn a_key_is_recognized_by_its_fingerprint_alone(
    items: Seq<ItemView>,
    fingerprint: Seq<char>,
)
    ensures
        first_match(vault_index(items), fingerprint) matches Some(v) ==> exists|i: int|
            0 <= i < items.len() && items[i].id == v.id && #[trigger] index_fingerprint(
                public_line_fingerprint(items[i].public_key),
                items[i].key_fingerprint,
            ) == Some(fingerprint),
{
    a_match_is_found(vault_index(items), fingerprint);
    if let Some(v) = first_match(vault_index(items), fingerprint) {
        index_entries_come_from_items(items, v);
        let i = choose|i: int|
            0 <= i < items.len() && #[trigger] ref_for(
                items[i],
                public_line_fingerprint(items[i].public_key),
            ) == Some(v);
        assert(index_fingerprint(
            public_line_fingerprint(items[i].public_key),
            items[i].key_fingerprint,
        ) == Some(fingerprint));
    }
}

/// A file's name alone tells whether it is passed over unread: public halves, the
/// files of known hosts, and three files by their full names are, and no others.
pub proof fn housekeeping_files_are_known_by_name(base: Seq<char>, name: Seq<char>)
    ensures
        is_housekeeping(base + ".pub"@),
        is_housekeeping("known_hosts"@ + base),
        is_housekeeping("config"@),
        is_housekeeping("authorized_keys"@),
        is_housekeeping("environment"@),
        is_housekeeping(name) ==> {
            ||| name == "config"@
            ||| name == "authorized_keys"@
            ||| name == "environment"@
            ||| name == name.take(name.len() - 4) + ".pub"@
            ||| name == "known_hosts"@ + name.skip(11)
        },
{
    reveal_strlit(".pub");
    reveal_strlit("known_hosts");
    text::prefixes_and_suffixes_are_parts(base, ".pub"@, name);
    text::prefixes_and_suffixes_are_parts("known_hosts"@, base, name);
}

/// Whatever is found in a file is that file's own: its path and all that it holds,
/// as it is, whether or not a passphrase protects it; and its algorithm,
/// fingerprint and public half are those that are read off the key in it.
pub proof fn a_candidate_is_what_its_file_holds(entry: EntryView)
    ensures
        analyzed(entry) matches Some(c) ==> {
            &&& c.path == entry.path
            &&& entry.contents == Some(c.private_pem)
            &&& private_key_in(c.private_pem) matches Ok(facts)
            &&& c.algorithm == facts.algorithm
            &&& c.fingerprint == facts.fingerprint
            &&& c.encrypted == facts.encrypted
            &&& facts.public_line == Some(c.public_openssh)
        },
{
}

/// Every file that may be a key, can be read as one, and has a public half that can
/// be written, makes a candidate; every other makes none.
pub proof fn every_key_file_makes_a_candidate(entry: EntryView)
    ensures
        analyzed(entry) is Some <==> {
            &&& entry.is_file
            &&& entry.name matches Some(name)
            &&& !is_housekeeping(name)
            &&& entry.contents matches Some(contents)
            &&& private_key_in(contents) matches Ok(facts)
            &&& facts.public_line is Some
        },
{
}

/// A candidate is called what the file of its public half says, and what the key
/// says itself where that file is missing or says nothing.
pub proof fn a_candidate_is_called_what_its_public_file_says(entry: EntryView)
    ensures
        analyzed(entry) matches Some(c) ==> match entry.public_file {
            Some(l) => match line_comment(l) {
                Some(comment) => c.comment == comment,
                None => c.comment == text::trimmed(private_key_in(c.private_pem)->Ok_0.comment),
            },
            None => c.comment == text::trimmed(private_key_in(c.private_pem)->Ok_0.comment),
        },
{
}

/// A key and what was read off it make a candidate with all of it, as it is.
pub proof fn a_candidate_is_built_from_what_was_read(
    path: Vec<u8>,
    contents: String,
    facts: KeyFacts,
    public_file: Option<String>,
    r: Option<Candidate>,
)
    requires
        call_ensures(build_candidate, (path, contents, facts, public_file), r),
    ensures
        r is Some <==> facts.public_line is Some,
        r matches Some(c) ==> {
            &&& c.path@ == path@
            &&& c.private_pem@ == contents@
            &&& c.algorithm@ == facts.algorithm@
            &&& c.fingerprint@ == facts.fingerprint@
            &&& c.encrypted == facts.encrypted
            &&& facts.public_line matches Some(line) && c.public_openssh@ == line@
        },
{
    if let Some(c) = r {
        assert(c@.path == path@);
    }
}

/// Where there is no gap before a place, the search for one goes on from there.
proof fn a_gap_is_the_first(s: Seq<char>, from: int, k: int)
    requires
        0 <= from <= k <= s.len(),
        forall|j: int| from <= j < k ==> !text::is_whitespace(#[trigger] s[j]),
        k < s.len() ==> text::is_whitespace(s[k]),
    ensures
        next_gap(s, from) == k,
    decreases k - from,
{
    if from < k {
        assert(!text::is_whitespace(s[from]));
        a_gap_is_the_first(s, from + 1, k);
    }
}

/// The comment of a public-key line is all that follows the second gap, whatever
/// words it has; a line of two words or of one has none.
pub proof fn the_comment_is_what_follows_the_key(
    head: Seq<char>,
    kind: Seq<char>,
    key: Seq<char>,
    gap: char,
    other: char,
    comment: Seq<char>,
    tail: Seq<char>,
)
    requires
        forall|i: int| 0 <= i < head.len() ==> text::is_whitespace(#[trigger] head[i]),
        forall|i: int| 0 <= i < tail.len() ==> text::is_whitespace(#[trigger] tail[i]),
        forall|i: int| 0 <= i < kind.len() ==> !text::is_whitespace(#[trigger] kind[i]),
        forall|i: int| 0 <= i < key.len() ==> !text::is_whitespace(#[trigger] key[i]),
        text::is_whitespace(gap),
        text::is_whitespace(other),
        kind.len() > 0,
        key.len() > 0,
        comment.len() > 0,
        !text::is_whitespace(comment[0]),
        !text::is_whitespace(comment.last()),
    ensures
        line_comment(head + (kind.push(gap) + key.push(other) + comment) + tail) == Some(comment),
        line_comment(head + (kind.push(gap) + key) + tail) is None,
        line_comment(head + kind + tail) is None,
{
    let none = Seq::<char>::empty();
    let full = kind.push(gap) + key.push(other) + comment;
    assert(full[0] == kind[0]);
    assert(full.last() == comment.last());
    text::trimming_takes_whitespace_alone(head, full, tail);
    let first = kind.len() as int;
    let second = first + 1 + key.len();
    assert forall|j: int| 0 <= j < first implies !text::is_whitespace(#[trigger] full[j]) by {
        assert(full[j] == kind[j]);
    }
    assert(full[first] == gap);
    a_gap_is_the_first(full, 0, first);
    assert forall|j: int| first + 1 <= j < second implies !text::is_whitespace(
        #[trigger] full[j],
    ) by {
        assert(full[j] == key[j - first - 1]);
    }
    assert(full[second] == other);
    a_gap_is_the_first(full, first + 1, second);
    assert(full.skip(second + 1) =~= comment);
    assert(none + comment + none =~= comment);
    text::trimming_takes_whitespace_alone(none, comment, none);

    let two = kind.push(gap) + key;
    assert(two[0] == kind[0]);
    assert(two.last() == key.last());
    text::trimming_takes_whitespace_alone(head, two, tail);
    assert forall|j: int| 0 <= j < first implies !text::is_whitespace(#[trigger] two[j]) by {
        assert(two[j] == kind[j]);
    }
    assert(two[first] == gap);
    a_gap_is_the_first(two, 0, first);
    assert forall|j: int| first + 1 <= j < two.len() implies !text::is_whitespace(
        #[trigger] two[j],
    ) by {
        assert(two[j] == key[j - first - 1]);
    }
    a_gap_is_the_first(two, first + 1, two.len() as int);

    text::trimming_takes_whitespace_alone(head, kind, tail);
    a_gap_is_the_first(kind, 0, first);
}

/// The candidates of two lists of files in a row are those of the one and then those
/// of the other, and one file makes its own candidate or none: no file has a part in
/// what becomes of another.
pub proof fn files_are_looked_at_one_by_one(a: Seq<EntryView>, b: Seq<EntryView>, entry: EntryView)
    ensures
        found(Seq::empty()) == Seq::<CandidateView>::empty(),
        analyzed(entry) matches Some(c) ==> found(seq![entry]) == seq![c],
        analyzed(entry) is None ==> found(seq![entry]) == Seq::<CandidateView>::empty(),
        found(a + b) == found(a) + found(b),
    decreases b.len(),
{
    let one = seq![entry];
    assert(one.drop_last() =~= Seq::empty());
    assert(found(one.drop_last()) =~= Seq::empty());
    if let Some(c) = analyzed(entry) {
        assert(found(one) =~= seq![c]);
    }
    if b.len() == 0 {
        assert(a + b =~= a);
        assert(found(a) + found(b) =~= found(a));
    } else {
        let rest = b.drop_last();
        files_are_looked_at_one_by_one(a, rest, entry);
        assert((a + b).drop_last() =~= a + rest);
        assert((a + b).last() == b.last());
        assert(found(a + b) =~= found(a) + found(b));
    }
}

/// Where a file makes a candidate, that candidate is among those found.
proof fn what_a_file_makes_is_found(entries: Seq<EntryView>, i: int)
    requires
        0 <= i < entries.len(),
        analyzed(entries[i]) is Some,
    ensures
        found(entries).contains(analyzed(entries[i])->0),
    decreases entries.len(),
{
    let rest = entries.drop_last();
    let all = found(entries);
    if i == entries.len() - 1 {
        assert(all[all.len() - 1] == analyzed(entries[i])->0);
    } else {
        what_a_file_makes_is_found(rest, i);
        let c = analyzed(rest[i])->0;
        let k = choose|k: int| 0 <= k < found(rest).len() && found(rest)[k] == c;
        assert(all[k] == c);
    }
}

/// The file that a candidate comes from.
proof fn the_file_of_a_candidate(entries: Seq<EntryView>, k: int) -> (i: int)
    requires
        0 <= k < found(entries).len(),
    ensures
        0 <= i < entries.len(),
        analyzed(entries[i]) == Some(found(entries)[k]),
    decreases entries.len(),
{
    let rest = entries.drop_last();
    if k < found(rest).len() {
        the_file_of_a_candidate(rest, k)
    } else {
        entries.len() - 1
    }
}

/// A scan finds the key of every file that holds one, and nothing else: each of the
/// keys found is that of one of the files, with its path and its contents, and they
/// stand in the order of their paths.
pub proof fn a_scan_finds_every_key_and_nothing_else(entries: Vec<Entry>, r: Vec<Candidate>)
    requires
        call_ensures(scan_dir, (entries,), r),
    ensures
        forall|i: int|
            0 <= i < entries@.len() && analyzed((#[trigger] entries@[i])@) is Some
                ==> candidate_views(r@).contains(analyzed(entries@[i]@)->0),
        forall|k: int|
            0 <= k < r@.len() ==> exists|i: int|
                0 <= i < entries@.len() && analyzed((#[trigger] entries@[i])@) == Some(
                    (#[trigger] r@[k])@,
                ),
        r@.len() == found(entry_views(entries@)).len(),
        forall|i: int, j: int|
            #![trigger r@[i], r@[j]]
            0 <= i < j < r@.len() ==> !before(r@[j].path@, r@[i].path@),
{
    broadcast use vstd::seq_lib::group_to_multiset_ensures;

    let all = entry_views(entries@);
    let views = candidate_views(r@);
    assert(views.to_multiset().len() == views.len());
    assert(found(all).to_multiset().len() == found(all).len());
    assert forall|i: int|
        0 <= i < entries@.len() && analyzed((#[trigger] entries@[i])@) is Some implies views.contains(
        analyzed(entries@[i]@)->0,
    ) by {
        assert(all[i] == entries@[i]@);
        what_a_file_makes_is_found(all, i);
        let c = analyzed(all[i])->0;
        assert(found(all).to_multiset().count(c) > 0);
        assert(views.to_multiset().count(c) > 0);
    }
    assert forall|k: int| 0 <= k < r@.len() implies exists|i: int|
        0 <= i < entries@.len() && analyzed((#[trigger] entries@[i])@) == Some(
            (#[trigger] r@[k])@,
        ) by {
        let c = r@[k]@;
        assert(views[k] == c);
        assert(views.contains(c));
        assert(views.to_multiset().count(c) > 0);
        assert(found(all).to_multiset().count(c) > 0);
        assert(found(all).contains(c));
        let j = choose|j: int| 0 <= j < found(all).len() && found(all)[j] == c;
        let i = the_file_of_a_candidate(all, j);
        assert(all[i] == entries@[i]@);
    }
    assert forall|i: int, j: int|
        #![trigger r@[i], r@[j]]
        0 <= i < j < r@.len() implies !before(r@[j].path@, r@[i].path@) by {
        assert(views[i] == r@[i]@ && views[j] == r@[j]@);
    }
}

/// Paths are ordered by the first byte in which they differ, and a path comes before
/// those that go on where it ends; none comes before itself.
pub proof fn paths_are_ordered_byte_by_byte(
    common: Seq<u8>,
    a: u8,
    b: u8,
    x: Seq<u8>,
    y: Seq<u8>,
)
    requires
        a != b,
    ensures
        before(common.push(a) + x, common.push(b) + y) <==> a < b,
        before(common, common.push(a) + x),
        !before(common.push(a) + x, common),
        !before(common, common),
    decreases common.len(),
{
    let l = common.push(a) + x;
    let r = common.push(b) + y;
    if common.len() == 0 {
        assert(l[0] == a && r[0] == b);
    } else {
        let rest = common.skip(1);
        paths_are_ordered_byte_by_byte(rest, a, b, x, y);
        assert(l[0] == common[0] && r[0] == common[0]);
        assert(l.skip(1) =~= rest.push(a) + x);
        assert(r.skip(1) =~= rest.push(b) + y);
    }
}

/// An item of the vault is found by the fingerprint of its public half, and by the
/// one that it holds only where its public half cannot be read; its place in the
/// index has its own id and name. One that has neither is not in the index.
pub proof fn an_item_is_found_by_its_public_half(item: ItemView, fingerprint: Seq<char>)
    ensures
        ref_for(item, Some(fingerprint)) == Some(
            VaultKeyRefView { id: item.id, name: item.name, fingerprint },
        ),
        item.key_fingerprint matches Some(stored) ==> ref_for(item, None) == Some(
            VaultKeyRefView { id: item.id, name: item.name, fingerprint: stored },
        ),
        item.key_fingerprint is None ==> ref_for(item, None) is None,
{
}

/// The index of two lists of items in a row is that of the one and then that of the
/// other, and one item has its own place in it or none.
pub proof fn items_are_indexed_one_by_one(a: Seq<ItemView>, b: Seq<ItemView>, item: ItemView)
    ensures
        vault_index(Seq::empty()) == Seq::<VaultKeyRefView>::empty(),
        ref_for(item, public_line_fingerprint(item.public_key)) matches Some(v) ==> vault_index(
            seq![item],
        ) == seq![v],
        ref_for(item, public_line_fingerprint(item.public_key)) is None ==> vault_index(
            seq![item],
        ).len() == 0,
        vault_index(a + b) == vault_index(a) + vault_index(b),
    decreases b.len(),
{
    let one = seq![item];
    assert(one.drop_last() =~= Seq::empty());
    assert(vault_index(one.drop_last()) =~= Seq::empty());
    if let Some(v) = ref_for(item, public_line_fingerprint(item.public_key)) {
        assert(vault_index(one) =~= seq![v]);
    }
    if b.len() == 0 {
        assert(a + b =~= a);
        assert(vault_index(a) + vault_index(b) =~= vault_index(a));
    } else {
        let rest = b.drop_last();
        items_are_indexed_one_by_one(a, rest, item);
        assert((a + b).drop_last() =~= a + rest);
        assert((a + b).last() == b.last());
        assert(vault_index(a + b) =~= vault_index(a) + vault_index(b));
    }
}

/// The match for a fingerprint is the first in the index that has it, and there is
/// none exactly where no place in the index has it.
pub proof fn the_match_is_the_first_with_the_fingerprint(
    index: Seq<VaultKeyRefView>,
    fingerprint: Seq<char>,
    k: int,
)
    requires
        0 <= k <= index.len(),
        k < index.len() ==> index[k].fingerprint == fingerprint,
        forall|j: int| 0 <= j < k ==> (#[trigger] index[j]).fingerprint != fingerprint,
    ensures
        k < index.len() ==> first_match(index, fingerprint) == Some(index[k]),
        k == index.len() ==> first_match(index, fingerprint) is None,
    decreases index.len(),
{
    if k > 0 {
        let rest = index.skip(1);
        assert(index[0].fingerprint != fingerprint);
        assert forall|j: int| 0 <= j < k - 1 implies (#[trigger] rest[j]).fingerprint
            != fingerprint by {
            assert(rest[j] == index[j + 1]);
        }
        the_match_is_the_first_with_the_fingerprint(rest, fingerprint, k - 1);
    }
}

/// A candidate's line says where it is, what it is, and what it is called, and
/// behind that whether a passphrase protects it and what the vault calls it.
pub proof fn a_line_says_all_of_a_candidate(c: CandidateView, held: VaultKeyRefView)
    ensures
        ({
            let key = "  "@ + text::utf8_lossy(c.path) + "  ["@ + c.algorithm + "]  "@
                + c.fingerprint + "  "@ + c.comment;
            let locked = "  (passphrase-protected)"@;
            let known = "  (already in the vault as '"@ + held.name + "')"@;
            &&& !c.encrypted ==> candidate_line(c, None) == key
            &&& c.encrypted ==> candidate_line(c, None) == key + locked
            &&& !c.encrypted ==> candidate_line(c, Some(held)) == key + known
            &&& c.encrypted ==> candidate_line(c, Some(held)) == key + locked + known
        }),
{
    reveal_strlit("");
    let key = "  "@ + text::utf8_lossy(c.path) + "  ["@ + c.algorithm + "]  "@ + c.fingerprint
        + "  "@ + c.comment;
    assert(key + ""@ + ""@ =~= key);
    assert(key + "  (passphrase-protected)"@ + ""@ =~= key + "  (passphrase-protected)"@);
    let known = "  (already in the vault as '"@ + held.name + "')"@;
    assert(key + ""@ + known =~= key + known);
}

/// The report has a heading, which counts the candidates or says that there are
/// none, and then a line for each of them, with what the vault holds of it.
pub proof fn the_report_has_a_line_for_each(
    dir: Seq<u8>,
    candidates: Seq<CandidateView>,
    index: Seq<VaultKeyRefView>,
    i: int,
)
    ensures
        report_lines(dir, candidates, index).len() == candidates.len() + 1,
        candidates.len() == 0 ==> report_lines(dir, candidates, index)[0]
            == "No SSH private keys found in "@ + text::utf8_lossy(dir) + "."@,
        candidates.len() > 0 ==> report_lines(dir, candidates, index)[0] == "Found "@
            + text::decimal(candidates.len()) + " candidate key(s):"@,
        0 <= i < candidates.len() ==> report_lines(dir, candidates, index)[i + 1]
            == candidate_line(candidates[i], first_match(index, candidates[i].fingerprint)),
{
}

/// Entries, candidates and places in the index are what stands in them.
pub proof fn finds_are_what_stands_in_them(
    e: Entry,
    c: Candidate,
    v: VaultKeyRef,
    entries: Seq<Entry>,
    candidates: Seq<Candidate>,
    refs: Seq<VaultKeyRef>,
    i: int,
)
    ensures
        e@.path == e.path@,
        e@.name == text::text_of(e.name),
        e@.is_file == e.is_file,
        e@.contents == text::text_of(e.contents),
        e@.public_file == text::text_of(e.public_file),
        c@.path == c.path@,
        c@.algorithm == c.algorithm@,
        c@.fingerprint == c.fingerprint@,
        c@.comment == c.comment@,
        c@.public_openssh == c.public_openssh@,
        c@.private_pem == c.private_pem@,
        c@.encrypted == c.encrypted,
        v@.id == v.id@,
        v@.name == v.name@,
        v@.fingerprint == v.fingerprint@,
        entry_views(entries).len() == entries.len(),
        0 <= i < entries.len() ==> entry_views(entries)[i] == entries[i]@,
        candidate_views(candidates).len() == candidates.len(),
        0 <= i < candidates.len() ==> candidate_views(candidates)[i] == candidates[i]@,
        ref_views(refs).len() == refs.len(),
        0 <= i < refs.len() ==> ref_views(refs)[i] == refs[i]@,
        held_view(Some(&v)) == Some(v@),
        held_view(None) is None,
{
}

/// A file is read as the key that it holds, or passed over.
pub proof fn a_file_is_read_as_what_it_holds(entry: Entry, r: Option<Candidate>)
    requires
        call_ensures(analyze_file, (entry,), r),
    ensures
        r matches Some(c) ==> {
            &&& c.path@ == entry.path@
            &&& entry.contents matches Some(contents) && c.private_pem@ == contents@
            &&& private_key_in(c.private_pem@) matches Ok(facts) && c.encrypted == facts.encrypted
                && c.fingerprint@ == facts.fingerprint && c.algorithm@ == facts.algorithm
        },
        r is Some <==> analyzed(entry@) is Some,
{
    if let Some(c) = r {
        a_candidate_is_what_its_file_holds(entry@);
        assert(c@.path == entry@.path);
    }
}

/// The vault's items are indexed by their fingerprints, and a key is found by its own.
pub proof fn the_vault_is_searched_by_fingerprint(
    items: &Vec<SshKeyItem>,
    index: Vec<VaultKeyRef>,
    searched: &Vec<VaultKeyRef>,
    fingerprint: &str,
    r: Option<&VaultKeyRef>,
)
    requires
        call_ensures(index_vault_keys, (items,), index),
        call_ensures(find_vault_match, (searched, fingerprint), r),
    ensures
        ref_views(index@) == vault_index(item_views(items@)),
        r matches Some(v) ==> v.fingerprint@ == fingerprint@ && ref_views(searched@).contains(v@),
        r is None ==> forall|k: int|
            0 <= k < searched@.len() ==> (#[trigger] searched@[k]).fingerprint@ != fingerprint@,
{
    a_match_is_found(ref_views(searched@), fingerprint@);
    if r is None {
        assert forall|k: int| 0 <= k < searched@.len() implies (
        #[trigger] searched@[k]).fingerprint@ != fingerprint@ by {
            assert(ref_views(searched@)[k] == searched@[k]@);
        }
    }
}

/// Scrubbing takes the private keys away and leaves all else.
pub proof fn scrubbing_takes_the_private_keys_alone(candidates: &mut Vec<Candidate>, i: int)
    requires
        call_ensures(scrub, (candidates,), ()),
        0 <= i < old(candidates)@.len(),
    ensures
        final(candidates)@.len() == old(candidates)@.len(),
        final(candidates)@[i]@.private_pem.len() == 0,
        final(candidates)@[i]@.path == old(candidates)@[i]@.path,
        final(candidates)@[i]@.fingerprint == old(candidates)@[i]@.fingerprint,
        final(candidates)@[i]@.algorithm == old(candidates)@[i]@.algorithm,
        final(candidates)@[i]@.comment == old(candidates)@[i]@.comment,
        final(candidates)@[i]@.public_openssh == old(candidates)@[i]@.public_openssh,
        final(candidates)@[i]@.encrypted == old(candidates)@[i]@.encrypted,
{
    let before = candidate_views(old(candidates)@);
    let after = candidate_views(final(candidates)@);
    assert(after.len() == before.len());
    assert(after[i] == (CandidateView { private_pem: Seq::empty(), ..before[i] }));
    assert(after[i] == final(candidates)@[i]@);
    assert(before[i] == old(candidates)@[i]@);
}

/// The report that the user gets has its heading and then, in turn, the line of each
/// candidate with what the vault holds of it.
pub proof fn the_user_is_shown_each_candidate(
    dir: &Vec<u8>,
    candidates: &Vec<Candidate>,
    index: &Vec<VaultKeyRef>,
    r: Vec<String>,
    i: int,
)
    requires
        call_ensures(report, (dir, candidates, index), r),
        0 <= i < candidates@.len(),
    ensures
        r@.len() == candidates@.len() + 1,
        r@[0]@ == "Found "@ + text::decimal(candidates@.len()) + " candidate key(s):"@,
        r@[i + 1]@ == candidate_line(
            candidates@[i]@,
            first_match(ref_views(index@), candidates@[i].fingerprint@),
        ),
{
    let lines = text::texts(r@);
    assert(lines.len() == r@.len());
    assert(lines[0] == r@[0]@);
    assert(lines[i + 1] == r@[i + 1]@);
    assert(candidate_views(candidates@)[i] == candidates@[i]@);
}

/// What is read off names, lines and items is what stands in them.
pub proof fn names_lines_and_items_are_read_as_they_are(
    name: &str,
    skipped: bool,
    line: &str,
    comment: Option<String>,
    item: &SshKeyItem,
    fingerprint: String,
    place: Option<VaultKeyRef>,
    public: &str,
    read: Option<String>,
    c: &Candidate,
    shown: String,
)
    requires
        call_ensures(is_non_key_filename, (name,), skipped),
        call_ensures(comment_from_pub_line, (line,), comment),
        call_ensures(index_item, (item, Some(fingerprint)), place),
        call_ensures(fingerprint_of_public, (public,), read),
        call_ensures(describe, (c, None::<&VaultKeyRef>), shown),
    ensures
        skipped <==> is_housekeeping(name@),
        text::text_of(comment) == line_comment(line@),
        place matches Some(v) && v.id@ == item.id@ && v.name@ == item.name@ && v.fingerprint@
            == fingerprint@,
        text::text_of(read) == public_line_fingerprint(public@),
        shown@ == candidate_line(c@, None),
{
}

} // verus!
