//! The connect form: an address book of profiles, the entry selected in it and the
//! profile being edited, with the decisions the form takes on each user action.
use vstd::prelude::*;

use crate::profile::{
    display_name_spec, host_port, normalized, same_account, ConnectionProfile, ProfileView,
};
use crate::text::{trim, trimmed};

verus! {

/// The views of a list of profiles, in order.
pub open spec fn views(s: Seq<ConnectionProfile>) -> Seq<ProfileView> {
    s.map_values(|p: ConnectionProfile| p@)
}

/// Keeps the profiles that do not name the same account as `p`.
pub open spec fn other_account(p: ProfileView) -> spec_fn(ProfileView) -> bool {
    |e: ProfileView| !same_account(e, p)
}

/// The address book after saving the normalized profile `p` while `selected` names the entry
/// under edit: that entry (when it exists) is dropped, as is every entry for the same account
/// as `p`, and `p` is put first; the other entries keep their order.
pub open spec fn book_after_save(
    book: Seq<ProfileView>,
    selected: Option<usize>,
    p: ProfileView,
) -> Seq<ProfileView> {
    let base = match selected {
        Some(i) => if i < book.len() {
            book.remove(i as int)
        } else {
            book
        },
        None => book,
    };
    seq![p] + base.filter(other_account(p))
}

/// The entry a choice in the address-book list selects: the index if it is in range, else none.
pub open spec fn chosen(choice: Option<usize>, len: nat) -> Option<usize> {
    match choice {
        Some(i) => if i < len {
            Some(i)
        } else {
            None
        },
        None => None,
    }
}

/// `p` with an empty name.
pub open spec fn without_name(p: ProfileView) -> ProfileView {
    ProfileView { name: Seq::empty(), ..p }
}

/// The profile a new form starts with when nothing is saved.
pub open spec fn starting_profile() -> ProfileView {
    ProfileView {
        name: Seq::empty(),
        address: "192.168.0.1"@,
        port: "5900"@,
        username: Seq::empty(),
        password: Seq::empty(),
    }
}

/// The label of the list entry that starts a new profile.
pub open spec fn new_connection_label() -> Seq<char> {
    "New connection"@
}

/// The fields saved one by one in the credential store, each read on its own.
pub struct SavedFields {
    pub address: Option<String>,
    pub port: Option<String>,
    pub username: Option<String>,
    pub password: Option<String>,
}

/// Replaces `field` by the saved text when there is one.
pub open spec fn overlay(field: Seq<char>, saved: Option<String>) -> Seq<char> {
    match saved {
        Some(s) => s@,
        None => field,
    }
}

/// `p` with each saved field put in place of its own.
pub open spec fn with_saved(p: ProfileView, saved: SavedFields) -> ProfileView {
    ProfileView {
        name: p.name,
        address: overlay(p.address, saved.address),
        port: overlay(p.port, saved.port),
        username: overlay(p.username, saved.username),
        password: overlay(p.password, saved.password),
    }
}

/// What a submit asks the viewer to connect to.
pub struct ConnectRequest {
    /// `address:port`.
    pub host: String,
    /// The username, when it is not empty.
    pub username: Option<String>,
    /// The password, when it is not empty.
    pub password: Option<String>,
}

/// The request built from a saved profile `p`.
pub open spec fn is_request_for(r: ConnectRequest, p: ProfileView) -> bool {
    &&& r.host@ == host_port(p.address, p.port)
    &&& (r.username is Some <==> p.username.len() > 0)
    &&& (r.username matches Some(u) ==> u@ == p.username)
    &&& (r.password is Some <==> p.password.len() > 0)
    &&& (r.password matches Some(w) ==> w@ == p.password)
}

/// What a submit did.
pub enum SubmitOutcome {
    /// Nothing was submitted.
    Idle,
    /// The profile was saved under its new name; no connection is made.
    Saved,
    /// The profile was saved and a connection is asked for.
    Connect(ConnectRequest),
}

/// The form's state: the address book, the selected entry and the profile being edited.
pub struct ConnectForm {
    pub profiles: Vec<ConnectionProfile>,
    pub selected: Option<usize>,
    pub current: ConnectionProfile,
}

impl ConnectForm {
    /// The address book as a sequence of profile views.
    pub open spec fn book(&self) -> Seq<ProfileView> {
        views(self.profiles@)
    }

    /// The selection, when there is one, names an entry of the address book.
    pub open spec fn wf(&self) -> bool {
        self.selected matches Some(i) ==> i < self.profiles@.len()
    }

    /// The entry under edit, when the selection names one.
    pub open spec fn selected_entry(&self) -> Option<ProfileView> {
        match self.selected {
            Some(i) => if i < self.profiles@.len() {
                Some(self.book()[i as int])
            } else {
                None
            },
            None => None,
        }
    }

    /// A connection can be asked for: address and port are not blank.
    pub open spec fn can_connect_spec(&self) -> bool {
        trimmed(self.current.address@).len() > 0 && trimmed(self.current.port@).len() > 0
    }

    /// The name being edited differs from the trimmed name of the selected entry (or from
    /// the empty name when no entry is selected), so a submit renames rather than connects.
    pub open spec fn rename_pending_spec(&self) -> bool {
        let original = match self.selected_entry() {
            Some(e) => trimmed(e.name),
            None => Seq::empty(),
        };
        trimmed(self.current.name@) != original
    }

    /// The label shown for the selection in the address-book list.
    pub open spec fn selected_label_spec(&self) -> Seq<char> {
        match self.selected_entry() {
            Some(e) => display_name_spec(e),
            None => new_connection_label(),
        }
    }

    /// Builds the form from what the credential store holds. When an address book was found
    /// (`Some`, possibly empty), it is used and the first entry is selected and loaded; the
    /// single saved fields are then not read. Otherwise the book is empty, nothing is
    /// selected, and the starting profile is filled in with the saved fields that
    /// `read_saved` finds.
    pub fn from_store<F: FnOnce() -> SavedFields>(
        address_book: Option<Vec<ConnectionProfile>>,
        read_saved: F,
    ) -> (r: ConnectForm)
        requires
            address_book is None ==> call_requires(read_saved, ()),
        ensures
            r.wf(),
            address_book matches Some(b) ==> {
                &&& r.book() == views(b@)
                &&& r.selected == (if b@.len() > 0 {
                    Some(0usize)
                } else {
                    None
                })
                &&& b@.len() > 0 ==> r.current@ == b@[0]@
                &&& b@.len() == 0 ==> r.current@ == starting_profile()
            },
            address_book is None ==> {
                &&& r.book().len() == 0
                &&& r.selected is None
                &&& exists|s: SavedFields|
                    call_ensures(read_saved, (), s) && r.current@ == with_saved(
                        starting_profile(),
                        s,
                    )
            },
    {
        let start = ConnectionProfile {
            name: String::new(),
            address: String::from_str("192.168.0.1"),
            port: String::from_str("5900"),
            username: String::new(),
            password: String::new(),
        };
        match address_book {
            Some(profiles) => {
                if profiles.len() > 0 {
                    let current = profiles[0].clone();
                    ConnectForm { profiles, selected: Some(0), current }
                } else {
                    ConnectForm { profiles, selected: None, current: start }
                }
            },
            None => {
                let saved = read_saved();
                let mut current = start;
                match saved.address {
                    Some(ref v) => current.address = v.clone(),
                    None => {},
                }
                match saved.port {
                    Some(ref v) => current.port = v.clone(),
                    None => {},
                }
                match saved.username {
                    Some(ref v) => current.username = v.clone(),
                    None => {},
                }
                match saved.password {
                    Some(ref v) => current.password = v.clone(),
                    None => {},
                }
                let r = ConnectForm { profiles: Vec::new(), selected: None, current };
                assert(r.book() =~= Seq::<ProfileView>::empty());
                assert(r.current@ == with_saved(starting_profile(), saved));
                r
            },
        }
    }

    /// Saves the profile being edited: its fields are trimmed (the password is kept as
    /// typed), the entry under edit and every entry for the same account are dropped, and
    /// the saved profile becomes the first entry, selected and loaded. Writing the address
    /// book to the credential store is left to the caller.
    pub fn save_current(&mut self)
        ensures
            final(self).book() == book_after_save(
                old(self).book(),
                old(self).selected,
                normalized(old(self).current@),
            ),
            final(self).current@ == normalized(old(self).current@),
            final(self).selected == Some(0usize),
            final(self).wf(),
    {
        let profile = self.current.normalized();
        let ghost pv = profile@;
        let selected = self.selected.take();
        match selected {
            Some(index) => {
                if index < self.profiles.len() {
                    let ghost before = self.profiles@;
                    self.profiles.remove(index);
                    assert(views(self.profiles@) =~= views(before).remove(index as int));
                }
            },
            None => {},
        }
        let ghost base = self.book();
        let mut kept: Vec<ConnectionProfile> = Vec::new();
        let mut i: usize = 0;
        let n = self.profiles.len();
        while i < n
            invariant
                n == self.profiles@.len(),
                base == views(self.profiles@),
                pv == profile@,
                i <= n,
                views(kept@) == base.take(i as int).filter(other_account(pv)),
            decreases n - i,
        {
            proof {
                reveal_with_fuel(Seq::filter, 1);
                assert(base.take(i + 1).drop_last() =~= base.take(i as int));
                assert(base.take(i + 1).last() == self.profiles@[i as int]@);
            }
            if !self.profiles[i].same_account(&profile) {
                let ghost k0 = kept@;
                kept.push(self.profiles[i].clone());
                assert(views(kept@) =~= views(k0).push(self.profiles@[i as int]@));
            }
            i = i + 1;
        }
        assert(base.take(n as int) =~= base);
        let ghost k1 = kept@;
        kept.insert(0, profile.clone());
        assert(views(kept@) =~= seq![pv] + views(k1));
        self.profiles = kept;
        self.current = profile;
        self.selected = Some(0);
    }

    /// Applies a choice made in the address-book list. A choice equal to the current
    /// selection changes nothing. Otherwise the selection becomes the chosen entry when it
    /// exists (and that entry is loaded for editing), or no entry (and the name being edited
    /// is cleared, the other fields kept).
    pub fn pick(&mut self, choice: Option<usize>)
        ensures
            final(self).book() == old(self).book(),
            choice == old(self).selected ==> {
                &&& final(self).selected == old(self).selected
                &&& final(self).current@ == old(self).current@
            },
            choice != old(self).selected ==> {
                &&& final(self).selected == chosen(choice, old(self).profiles@.len())
                &&& (final(self).selected matches Some(i) ==> final(self).current@ == old(
                    self,
                ).book()[i as int])
                &&& (final(self).selected is None ==> final(self).current@ == without_name(
                    old(self).current@,
                ))
            },
            final(self).wf() || choice == old(self).selected && !old(self).wf(),
    {
        if choice == self.selected {
            return;
        }
        let picked = match choice {
            Some(i) => if i < self.profiles.len() {
                Some(i)
            } else {
                None
            },
            None => None,
        };
        self.selected = picked;
        match picked {
            Some(i) => {
                self.current = self.profiles[i].clone();
            },
            None => {
                self.current.name = String::new();
            },
        }
    }

    /// Deletes the selected entry. The selection is cleared in every case; when it named an
    /// entry of the book, that entry is removed, the name being edited is cleared and `true`
    /// is returned, so that the caller writes the book back to the credential store.
    pub fn delete_selected(&mut self) -> (deleted: bool)
        ensures
            deleted == old(self).selected_entry() is Some,
            final(self).selected is None,
            deleted ==> final(self).book() == old(self).book().remove(
                old(self).selected->0 as int,
            ) && final(self).current@ == without_name(old(self).current@),
            !deleted ==> final(self).book() == old(self).book() && final(self).current@ == old(
                self,
            ).current@,
            final(self).wf(),
    {
        match self.selected.take() {
            Some(index) => {
                if index < self.profiles.len() {
                    let ghost before = self.profiles@;
                    self.profiles.remove(index);
                    assert(views(self.profiles@) =~= views(before).remove(index as int));
                    self.current.name = String::new();
                    true
                } else {
                    false
                }
            },
            None => false,
        }
    }

    /// Whether the connect button is enabled: address and port are not blank.
    pub fn can_connect(&self) -> (r: bool)
        ensures
            r == self.can_connect_spec(),
    {
        let address = trim(self.current.address.as_str());
        let port = trim(self.current.port.as_str());
        !address.as_str().is_empty() && !port.as_str().is_empty()
    }

    /// Whether a submit would rename the selected entry instead of connecting.
    pub fn rename_pending(&self) -> (r: bool)
        ensures
            r == self.rename_pending_spec(),
    {
        let original = match self.selected {
            Some(i) => if i < self.profiles.len() {
                trim(self.profiles[i].name.as_str())
            } else {
                String::new()
            },
            None => String::new(),
        };
        let name = trim(self.current.name.as_str());
        !(name == original)
    }

    /// The label shown for the selection in the address-book list.
    pub fn selected_label(&self) -> (r: String)
        ensures
            r@ == self.selected_label_spec(),
    {
        match self.selected {
            Some(i) => if i < self.profiles.len() {
                self.profiles[i].display_name()
            } else {
                String::from_str("New connection")
            },
            None => String::from_str("New connection"),
        }
    }

    /// Keeps only the digits of the port being edited.
    pub fn sanitize_port(&mut self)
        ensures
            final(self).current.port@ == old(self).current.port@.filter(
                |c: char| crate::text::is_digit(c),
            ),
            final(self).current.name@ == old(self).current.name@,
            final(self).current.address@ == old(self).current.address@,
            final(self).current.username@ == old(self).current.username@,
            final(self).current.password@ == old(self).current.password@,
            final(self).book() == old(self).book(),
            final(self).selected == old(self).selected,
    {
        crate::text::retain_ascii_digits(&mut self.current.port);
    }

    /// Handles the connect button and the Enter key. A submit happens when the button was
    /// clicked, or Enter was pressed while a connection can be asked for; it saves the
    /// profile being edited (see `save_current`). When a rename was pending the outcome is
    /// `Saved`; otherwise it is a request to connect to the saved profile's `address:port`,
    /// with its username and password when they are not empty.
    pub fn submit(&mut self, clicked: bool, enter_pressed: bool) -> (r: SubmitOutcome)
        ensures
            !(clicked || old(self).can_connect_spec() && enter_pressed) ==> {
                &&& r is Idle
                &&& final(self).book() == old(self).book()
                &&& final(self).selected == old(self).selected
                &&& final(self).current@ == old(self).current@
            },
            (clicked || old(self).can_connect_spec() && enter_pressed) ==> {
                &&& final(self).book() == book_after_save(
                    old(self).book(),
                    old(self).selected,
                    normalized(old(self).current@),
                )
                &&& final(self).current@ == normalized(old(self).current@)
                &&& final(self).selected == Some(0usize)
                &&& old(self).rename_pending_spec() ==> r is Saved
                &&& !old(self).rename_pending_spec() ==> (r matches SubmitOutcome::Connect(
                    req,
                ) && is_request_for(req, final(self).current@))
            },
    {
        let can_connect = self.can_connect();
        if !(clicked || (can_connect && enter_pressed)) {
            return SubmitOutcome::Idle;
        }
        let rename_pending = self.rename_pending();
        self.save_current();
        if rename_pending {
            return SubmitOutcome::Saved;
        }
        let mut host = self.current.address.clone();
        host.append(":");
        host.append(self.current.port.as_str());
        proof {
            reveal_strlit(":");
        }
        let username = if self.current.username.as_str().is_empty() {
            None
        } else {
            Some(self.current.username.clone())
        };
        let password = if self.current.password.as_str().is_empty() {
            None
        } else {
            Some(self.current.password.clone())
        };
        let req = ConnectRequest { host, username, password };
        assert(req.host@ == host_port(self.current.address@, self.current.port@));
        assert(is_request_for(req, self.current@));
        SubmitOutcome::Connect(req)
    }
}

/// No two entries of the book name the same account.
pub open spec fn distinct_accounts(b: Seq<ProfileView>) -> bool {
    forall|i: int, j: int| 0 <= i < j < b.len() ==> !same_account(#[trigger] b[i], #[trigger] b[j])
}

proof fn lemma_filter_keeps_others(s: Seq<ProfileView>, p: ProfileView)
    ensures
        forall|k: int|
            0 <= k < s.filter(other_account(p)).len() ==> !same_account(
                #[trigger] s.filter(other_account(p))[k],
                p,
            ),
        forall|k: int|
            0 <= k < s.filter(other_account(p)).len() ==> exists|m: int|
                0 <= m < s.len() && s[m] == #[trigger] s.filter(other_account(p))[k],
        distinct_accounts(s) ==> distinct_accounts(s.filter(other_account(p))),
    decreases s.len(),
{
    reveal_with_fuel(Seq::filter, 1);
    if s.len() > 0 {
        let r = s.drop_last();
        lemma_filter_keeps_others(r, p);
        let f = r.filter(other_account(p));
        assert forall|k: int| 0 <= k < f.len() implies exists|m: int|
            0 <= m < s.len() && s[m] == #[trigger] f[k] by {
            let m = choose|m: int| 0 <= m < r.len() && r[m] == f[k];
            assert(s[m] == f[k]);
        }
        if other_account(p)(s.last()) {
            let g = f.push(s.last());
            assert(s.filter(other_account(p)) == g);
            if distinct_accounts(s) {
                assert(distinct_accounts(r));
                assert forall|i: int, j: int| 0 <= i < j < g.len() implies !same_account(
                    #[trigger] g[i],
                    #[trigger] g[j],
                ) by {
                    if j == f.len() {
                        let m = choose|m: int| 0 <= m < r.len() && r[m] == f[i];
                        assert(s[m] == g[i]);
                        assert(s[s.len() - 1] == g[j]);
                    } else {
                        assert(g[i] == f[i] && g[j] == f[j]);
                    }
                }
            }
        } else {
            if distinct_accounts(s) {
                assert(distinct_accounts(r));
            }
        }
    }
}

proof fn lemma_filter_all_kept(s: Seq<ProfileView>, p: ProfileView)
    requires
        forall|k: int| 0 <= k < s.len() ==> !same_account(#[trigger] s[k], p),
    ensures
        s.filter(other_account(p)) == s,
    decreases s.len(),
{
    reveal_with_fuel(Seq::filter, 1);
    if s.len() > 0 {
        let r = s.drop_last();
        assert forall|k: int| 0 <= k < r.len() implies !same_account(#[trigger] r[k], p) by {
            assert(r[k] == s[k]);
        }
        lemma_filter_all_kept(r, p);
        assert(r.push(s.last()) =~= s);
    }
}

proof fn lemma_remove_distinct(b: Seq<ProfileView>, i: int)
    requires
        distinct_accounts(b),
        0 <= i < b.len(),
    ensures
        distinct_accounts(b.remove(i)),
{
    let r = b.remove(i);
    assert forall|x: int, y: int| 0 <= x < y < r.len() implies !same_account(
        #[trigger] r[x],
        #[trigger] r[y],
    ) by {
        let bx = if x < i {
            x
        } else {
            x + 1
        };
        let by_ = if y < i {
            y
        } else {
            y + 1
        };
        assert(r[x] == b[bx] && r[y] == b[by_]);
    }
}

/// Saving keeps the address book free of duplicate accounts: if no two entries named the
/// same account before, none do after.
pub proof fn law_save_keeps_accounts_distinct(
    book: Seq<ProfileView>,
    selected: Option<usize>,
    current: ProfileView,
)
    requires
        distinct_accounts(book),
    ensures
        distinct_accounts(book_after_save(book, selected, normalized(current))),
{
    let p = normalized(current);
    let base = match selected {
        Some(i) => if i < book.len() {
            book.remove(i as int)
        } else {
            book
        },
        None => book,
    };
    if let Some(i) = selected {
        if i < book.len() {
            lemma_remove_distinct(book, i as int);
        }
    }
    lemma_filter_keeps_others(base, p);
    let f = base.filter(other_account(p));
    let g = seq![p] + f;
    assert forall|x: int, y: int| 0 <= x < y < g.len() implies !same_account(
        #[trigger] g[x],
        #[trigger] g[y],
    ) by {
        assert(g[y] == f[y - 1]);
        if x > 0 {
            assert(g[x] == f[x - 1]);
        } else {
            assert(!same_account(f[y - 1], p));
        }
    }
}

/// After a save, the saved account appears exactly once in the book: as its first entry.
pub proof fn law_saved_account_first_and_unique(
    book: Seq<ProfileView>,
    selected: Option<usize>,
    current: ProfileView,
)
    ensures
        book_after_save(book, selected, normalized(current))[0] == normalized(current),
        forall|k: int|
            0 < k < book_after_save(book, selected, normalized(current)).len() ==> !same_account(
                #[trigger] book_after_save(book, selected, normalized(current))[k],
                normalized(current),
            ),
{
    let p = normalized(current);
    let base = match selected {
        Some(i) => if i < book.len() {
            book.remove(i as int)
        } else {
            book
        },
        None => book,
    };
    lemma_filter_keeps_others(base, p);
    let g = book_after_save(book, selected, p);
    assert forall|k: int| 0 < k < g.len() implies !same_account(#[trigger] g[k], p) by {
        assert(g[k] == base.filter(other_account(p))[k - 1]);
    }
}

/// Saving is idempotent: saving the just-saved profile again (it is then the selected first
/// entry) leaves the book and the profile as they were.
pub proof fn law_save_idempotent(
    book: Seq<ProfileView>,
    selected: Option<usize>,
    current: ProfileView,
)
    ensures
        normalized(normalized(current)) == normalized(current),
        book_after_save(
            book_after_save(book, selected, normalized(current)),
            Some(0usize),
            normalized(normalized(current)),
        ) == book_after_save(book, selected, normalized(current)),
{
    crate::text::law_trim_idempotent(current.name);
    crate::text::law_trim_idempotent(current.address);
    crate::text::law_trim_idempotent(current.port);
    crate::text::law_trim_idempotent(current.username);
    let p = normalized(current);
    assert(normalized(p) == p);
    let base = match selected {
        Some(i) => if i < book.len() {
            book.remove(i as int)
        } else {
            book
        },
        None => book,
    };
    lemma_filter_keeps_others(base, p);
    let f = base.filter(other_account(p));
    let b1 = seq![p] + f;
    assert(b1.remove(0) =~= f);
    lemma_filter_all_kept(f, p);
}

/// Deleting an entry keeps the address book free of duplicate accounts.
pub proof fn law_delete_keeps_accounts_distinct(book: Seq<ProfileView>, i: int)
    requires
        distinct_accounts(book),
        0 <= i < book.len(),
    ensures
        distinct_accounts(book.remove(i)),
{
    lemma_remove_distinct(book, i);
}

/// When the profile being edited is the selected entry as loaded (after picking it, or after
/// saving it), no rename is pending, so the next submit connects.
pub proof fn law_loaded_entry_has_no_pending_rename(f: ConnectForm)
    requires
        f.selected matches Some(i) && i < f.profiles@.len() && f.current@ == f.book()[i as int],
    ensures
        !f.rename_pending_spec(),
{
}


/// Saving with an entry under edit replaces that entry, whichever index it has (the first
/// included): the book becomes the saved profile followed by the other entries, in order,
/// minus those for the saved account. The entry under edit never survives, so with an entry
/// under edit the book never grows.
pub proof fn law_save_replaces_entry_under_edit(
    book: Seq<ProfileView>,
    i: usize,
    current: ProfileView,
)
    requires
        i < book.len(),
    ensures
        book_after_save(book, Some(i), normalized(current)) == seq![normalized(current)]
            + book.remove(i as int).filter(
            |e: ProfileView| !same_account(e, normalized(current)),
        ),
        book_after_save(book, Some(i), normalized(current)).len() <= book.len(),
{
    let p = normalized(current);
    assert(other_account(p) =~= |e: ProfileView| !same_account(e, p));
    book.remove(i as int).lemma_filter_len(other_account(p));
}

/// When no address book exists, every field found in the credential store replaces the
/// starting field; a field not found keeps the starting value; the name stays.
pub proof fn law_saved_fields_replace_starting_fields(s: SavedFields)
    ensures
        with_saved(starting_profile(), s).name == starting_profile().name,
        s.address matches Some(v) ==> with_saved(starting_profile(), s).address == v@,
        s.port matches Some(v) ==> with_saved(starting_profile(), s).port == v@,
        s.username matches Some(v) ==> with_saved(starting_profile(), s).username == v@,
        s.password matches Some(v) ==> with_saved(starting_profile(), s).password == v@,
        s.address is None ==> with_saved(starting_profile(), s).address == "192.168.0.1"@,
        s.port is None ==> with_saved(starting_profile(), s).port == "5900"@,
        s.username is None ==> with_saved(starting_profile(), s).username.len() == 0,
        s.password is None ==> with_saved(starting_profile(), s).password.len() == 0,
{
}

/// The label of an in-range selection is the entry's own trimmed name when that is not
/// blank, and its default name only when it is; without an in-range selection the label
/// is "New connection".
pub proof fn law_selected_label_prefers_own_name(f: ConnectForm, i: usize)
    ensures
        f.selected == Some(i) && i < f.profiles@.len() && trimmed(f.book()[i as int].name).len()
            > 0 ==> f.selected_label_spec() == trimmed(f.book()[i as int].name),
        f.selected == Some(i) && i < f.profiles@.len() && trimmed(f.book()[i as int].name).len()
            == 0 ==> f.selected_label_spec() == crate::profile::default_name_spec(f.book()[i as int]),
        !(f.selected matches Some(j) && j < f.profiles@.len()) ==> f.selected_label_spec()
            == "New connection"@,
{
}

/// A rename is pending exactly when the trimmed name being edited differs from the trimmed
/// name of the selected entry (from the empty name when no entry is selected); a blank
/// edited name counts. So blanking the name of a named entry makes a submit save, not
/// connect.
pub proof fn law_rename_pending_exactly_on_name_change(f: ConnectForm, i: usize)
    ensures
        f.selected == Some(i) && i < f.profiles@.len() ==> (f.rename_pending_spec() <==> trimmed(
            f.current.name@,
        ) != trimmed(f.book()[i as int].name)),
        !(f.selected matches Some(j) && j < f.profiles@.len()) ==> (f.rename_pending_spec()
            <==> trimmed(f.current.name@).len() > 0),
        f.selected == Some(i) && i < f.profiles@.len() && trimmed(f.book()[i as int].name).len()
            > 0 && trimmed(f.current.name@).len() == 0 ==> f.rename_pending_spec(),
{
    if !(f.selected matches Some(j) && j < f.profiles@.len()) {
        if trimmed(f.current.name@).len() > 0 {
            assert(trimmed(f.current.name@) != Seq::<char>::empty());
        } else {
            assert(trimmed(f.current.name@) =~= Seq::<char>::empty());
        }
    }
}

} // verus!
