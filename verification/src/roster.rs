//! The roster: who is connected, each with the avatar derived from the name.

use vstd::prelude::*;
use vstd::string::StringExecFns;

verus! {

/// One entry of the roster.
#[derive(Debug, Clone, PartialEq, Eq)]
pub struct UserProfile {
    pub name: String,
    pub avatar: String,
}

/// A [`UserProfile`] as a mathematical value.
pub struct UserProfileView {
    pub name: Seq<char>,
    pub avatar: Seq<char>,
}

impl View for UserProfile {
    type V = UserProfileView;

    open spec fn view(&self) -> UserProfileView {
        UserProfileView { name: self.name@, avatar: self.avatar@ }
    }
}

/// The address of the avatar of the user of that name.
pub open spec fn avatar_url(name: Seq<char>) -> Seq<char> {
    "https://avatars.dicebear.com/api/adventurer-neutral/"@ + name + ".svg"@
}

/// The address of the avatar of the user of that name: the avatar
/// service's address, the name, and `.svg`.
pub fn derive_avatar_url(name: &str) -> (url: String)
    ensures
        url@ == avatar_url(name@),
{
    let mut url = "https://avatars.dicebear.com/api/adventurer-neutral/".to_owned();
    url.append(name);
    url.append(".svg");
    url
}

/// The names in the order in which each first occurs, each once.
pub open spec fn distinct(names: Seq<Seq<char>>) -> Seq<Seq<char>>
    decreases names.len(),
{
    if names.len() == 0 {
        Seq::empty()
    } else {
        let before = distinct(names.drop_last());
        if before.contains(names.last()) {
            before
        } else {
            before.push(names.last())
        }
    }
}

/// The roster entry of a name.
pub open spec fn profile_of(name: Seq<char>) -> UserProfileView {
    UserProfileView { name, avatar: avatar_url(name) }
}

/// The roster that a list of names stands for: one entry for each name, in
/// the order in which the names first occur. A name that occurs again
/// changes nothing.
pub open spec fn roster_of(names: Seq<Seq<char>>) -> Seq<UserProfileView> {
    Seq::new(distinct(names).len(), |i: int| profile_of(distinct(names)[i]))
}

/// A roster is valid where no two entries share a name and each avatar is
/// the one derived from the entry's name.
pub open spec fn valid_roster(roster: Seq<UserProfileView>) -> bool {
    &&& forall|i: int| 0 <= i < roster.len() ==> (#[trigger] roster[i]).avatar == avatar_url(
        roster[i].name,
    )
    &&& forall|i: int, j: int|
        0 <= i < j < roster.len() ==> (#[trigger] roster[i]).name != (#[trigger] roster[j]).name
}

/// A vector of roster entries as a mathematical value.
pub open spec fn roster_view(users: Seq<UserProfile>) -> Seq<UserProfileView> {
    Seq::new(users.len(), |i: int| users[i]@)
}

/// What `distinct` keeps is what the list holds.
pub proof fn lemma_distinct_holds_the_names(names: Seq<Seq<char>>)
    ensures
        forall|name: Seq<char>| distinct(names).contains(name) <==> names.contains(name),
        distinct(names).no_duplicates(),
        distinct(names).len() <= names.len(),
    decreases names.len(),
{
    if names.len() > 0 {
        let front = names.drop_last();
        let last = names.last();
        lemma_distinct_holds_the_names(front);
        let before = distinct(front);
        assert forall|name: Seq<char>| distinct(names).contains(name) <==> names.contains(
            name,
        ) by {
            if names.contains(name) {
                let i = choose|i: int| 0 <= i < names.len() && names[i] == name;
                if i < names.len() - 1 {
                    assert(front[i] == name);
                    assert(front.contains(name));
                    assert(before.contains(name));
                    if !before.contains(last) {
                        let k = choose|k: int| 0 <= k < before.len() && before[k] == name;
                        assert(before.push(last)[k] == name);
                    }
                } else {
                    if !before.contains(last) {
                        assert(before.push(last)[before.len() as int] == last);
                    }
                }
            }
            if distinct(names).contains(name) {
                let k = choose|k: int| 0 <= k < distinct(names).len() && distinct(names)[k] == name;
                if k < before.len() {
                    assert(before[k] == name);
                    assert(front.contains(name));
                    let i = choose|i: int| 0 <= i < front.len() && front[i] == name;
                    assert(names[i] == name);
                } else {
                    assert(name == last);
                    assert(names[names.len() - 1] == name);
                }
            }
        }
    }
}

/// A list that repeats no name is kept as it is.
pub proof fn lemma_distinct_keeps_a_list_without_repeats(names: Seq<Seq<char>>)
    requires
        names.no_duplicates(),
    ensures
        distinct(names) == names,
    decreases names.len(),
{
    if names.len() > 0 {
        let front = names.drop_last();
        lemma_distinct_keeps_a_list_without_repeats(front);
        if front.contains(names.last()) {
            let i = choose|i: int| 0 <= i < front.len() && front[i] == names.last();
            assert(names[i] == names[names.len() - 1]);
        }
        assert(front.push(names.last()) =~= names);
    } else {
        assert(names =~= Seq::empty());
    }
}

/// Running `distinct` again changes nothing.
pub proof fn lemma_distinct_is_idempotent(names: Seq<Seq<char>>)
    ensures
        distinct(distinct(names)) == distinct(names),
{
    lemma_distinct_holds_the_names(names);
    lemma_distinct_keeps_a_list_without_repeats(distinct(names));
}

/// Every roster made from a list of names is valid, and names exactly the
/// users in the list.
pub proof fn law_roster_is_valid(names: Seq<Seq<char>>)
    ensures
        valid_roster(roster_of(names)),
        roster_of(names).len() <= names.len(),
        forall|name: Seq<char>|
            names.contains(name) <==> roster_of(names).contains(#[trigger] profile_of(name)),
{
    lemma_distinct_holds_the_names(names);
    let kept = distinct(names);
    let roster = roster_of(names);
    assert forall|name: Seq<char>| names.contains(name) <==> roster.contains(
        #[trigger] profile_of(name),
    ) by {
        if names.contains(name) {
            let k = choose|k: int| 0 <= k < kept.len() && kept[k] == name;
            assert(roster[k] == profile_of(name));
        }
        if roster.contains(profile_of(name)) {
            let k = choose|k: int| 0 <= k < roster.len() && roster[k] == profile_of(name);
            assert(kept[k] == name);
        }
    }
}

/// A list of names that repeats none becomes a roster of the same length
/// and order.
pub proof fn law_roster_follows_the_names(names: Seq<Seq<char>>)
    requires
        names.no_duplicates(),
    ensures
        roster_of(names).len() == names.len(),
        forall|i: int| 0 <= i < names.len() ==> roster_of(names)[i] == profile_of(names[i]),
{
    lemma_distinct_keeps_a_list_without_repeats(names);
}

/// Whether the roster has an entry of that name.
fn has_name(users: &Vec<UserProfile>, name: &String) -> (found: bool)
    ensures
        found == exists|k: int| 0 <= k < users.len() && (#[trigger] users[k]).name@ == name@,
{
    let mut k: usize = 0;
    while k < users.len()
        invariant
            k <= users.len(),
            forall|j: int| 0 <= j < k ==> (#[trigger] users[j]).name@ != name@,
        decreases users.len() - k,
    {
        if users[k].name == *name {
            return true;
        }
        k += 1;
    }
    false
}

/// Whether the roster has an entry of that name.
pub open spec fn has_entry(roster: Seq<UserProfileView>, name: Seq<char>) -> bool {
    exists|i: int| 0 <= i < roster.len() && (#[trigger] roster[i]).name == name
}

/// The avatar under which a user is shown: the derived one where the
/// roster knows the name, none otherwise.
pub open spec fn avatar_in(roster: Seq<UserProfileView>, name: Seq<char>) -> Option<Seq<char>> {
    if has_entry(roster, name) {
        Some(avatar_url(name))
    } else {
        None
    }
}

/// The connected users. In every roster no two entries share a name, and
/// each entry's avatar is the one derived from its name.
pub struct Roster {
    users: Vec<UserProfile>,
}

impl View for Roster {
    type V = Seq<UserProfileView>;

    closed spec fn view(&self) -> Seq<UserProfileView> {
        roster_view(self.users@)
    }
}

impl Roster {
    #[verifier::type_invariant]
    spec fn is_valid(self) -> bool {
        valid_roster(roster_view(self.users@))
    }

    /// The roster without users.
    pub fn new() -> (roster: Roster)
        ensures
            roster@.len() == 0,
    {
        Roster { users: Vec::new() }
    }

    /// The roster for a list of names: [`roster_of`] of the names.
    pub fn from_names(names: &Vec<String>) -> (roster: Roster)
        ensures
            roster@ == roster_of(names.deep_view()),
    {
        let ghost all = names.deep_view();
        let mut users: Vec<UserProfile> = Vec::new();
        let mut i: usize = 0;
        assert(all.take(0) =~= Seq::empty());
        while i < names.len()
            invariant
                i <= names.len(),
                all == names.deep_view(),
                roster_view(users@) == roster_of(all.take(i as int)),
            decreases names.len() - i,
        {
            let ghost kept = distinct(all.take(i as int));
            let ghost name = names[i as int]@;
            let seen = has_name(&users, &names[i]);
            proof {
                assert(all.take(i + 1).drop_last() =~= all.take(i as int));
                assert(all.take(i + 1).last() == name);
                assert(roster_view(users@).len() == kept.len());
                if seen {
                    let k = choose|k: int|
                        0 <= k < users.len() && (#[trigger] users[k]).name@ == name;
                    assert(roster_view(users@)[k].name == name);
                    assert(kept[k] == name);
                }
                if kept.contains(name) {
                    let k = choose|k: int| 0 <= k < kept.len() && kept[k] == name;
                    assert(roster_view(users@)[k].name == name);
                    assert(users[k].name@ == name);
                }
                assert(seen == kept.contains(name));
                assert(distinct(all.take(i + 1)) == if seen {
                    kept
                } else {
                    kept.push(name)
                });
            }
            if !seen {
                let ghost before = roster_view(users@);
                let avatar = derive_avatar_url(names[i].as_str());
                users.push(UserProfile { name: names[i].clone(), avatar });
                assert(roster_view(users@) =~= before.push(profile_of(name)));
                assert(roster_view(users@) =~= roster_of(all.take(i + 1)));
            }
            i += 1;
        }
        proof {
            assert(all.take(names.len() as int) =~= all);
            law_roster_is_valid(all);
        }
        Roster { users }
    }

    /// The entries, in the order in which the names first occurred. They
    /// form a valid roster.
    pub fn users(&self) -> (users: &Vec<UserProfile>)
        ensures
            roster_view(users@) == self@,
            valid_roster(self@),
    {
        proof {
            use_type_invariant(self);
        }
        &self.users
    }

    /// The avatar of the entry of that name, `None` where the roster has
    /// none.
    pub fn avatar_of(&self, name: &str) -> (avatar: Option<String>)
        ensures
            match avatar {
                Some(url) => avatar_in(self@, name@) == Some(url@),
                None => avatar_in(self@, name@) is None,
            },
    {
        proof {
            use_type_invariant(self);
        }
        let wanted = name.to_owned();
        let mut i: usize = 0;
        while i < self.users.len()
            invariant
                i <= self.users.len(),
                wanted@ == name@,
                valid_roster(roster_view(self.users@)),
                forall|k: int| 0 <= k < i ==> (#[trigger] self.users[k]).name@ != name@,
            decreases self.users.len() - i,
        {
            if self.users[i].name == wanted {
                assert(roster_view(self.users@)[i as int].name == name@);
                return Some(self.users[i].avatar.clone());
            }
            i += 1;
        }
        assert forall|k: int| 0 <= k < self@.len() implies (#[trigger] self@[k]).name != name@ by {
            assert(self.users[k].name@ != name@);
        }
        None
    }
}

} // verus!
