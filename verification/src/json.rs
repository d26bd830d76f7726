//! JSON trees: the library's own copy of a `serde_json::Value`, and the way
//! there and back.

use vstd::prelude::*;

verus! {

/// `serde_json::Value`, opaque. What it holds is named by [`value_json`].
#[verifier::external_type_specification]
#[verifier::external_body]
pub struct ExValue(serde_json::Value);

/// `serde_json::Number`, opaque: a number is carried through, never read.
#[verifier::external_type_specification]
#[verifier::external_body]
pub struct ExNumber(serde_json::Number);

/// A JSON tree as a mathematical value. An object is a map from its keys to
/// its members: the order in which the members were written is not part of it.
pub enum JsonView {
    Null,
    Bool(bool),
    Number(serde_json::Number),
    Str(Seq<char>),
    Array(Seq<JsonView>),
    Object(Map<Seq<char>, JsonView>),
}

impl JsonView {
    /// The member under `key`: there is none where the tree is no object.
    pub open spec fn get(self, key: Seq<char>) -> Option<JsonView> {
        match self {
            JsonView::Object(members) => if members.contains_key(key) {
                Some(members[key])
            } else {
                None
            },
            _ => None,
        }
    }

    /// The text of a JSON string, and nothing for any other tree.
    pub open spec fn as_str(self) -> Option<Seq<char>> {
        match self {
            JsonView::Str(text) => Some(text),
            _ => None,
        }
    }
}

/// The map that a list of members stands for: of two members under one key the
/// later one counts.
pub open spec fn members_map(members: Seq<(Seq<char>, JsonView)>) -> Map<Seq<char>, JsonView>
    decreases members.len(),
{
    if members.len() == 0 {
        Map::empty()
    } else {
        members_map(members.drop_last()).insert(members.last().0, members.last().1)
    }
}

/// A JSON tree.
#[derive(Debug)]
pub enum Json {
    Null,
    Bool(bool),
    Number(serde_json::Number),
    Str(String),
    Array(Vec<Json>),
    /// The members of an object. Where a key occurs twice, the later member
    /// counts.
    Object(Vec<(String, Json)>),
}

impl Json {
    /// The tree that the value stands for.
    pub open spec fn tree(self) -> JsonView
        decreases self,
    {
        match self {
            Json::Null => JsonView::Null,
            Json::Bool(b) => JsonView::Bool(b),
            Json::Number(n) => JsonView::Number(n),
            Json::Str(s) => JsonView::Str(s@),
            Json::Array(items) => JsonView::Array(
                Seq::new(
                    items@.len(),
                    |i: int|
                        if 0 <= i < items@.len() {
                            items@[i].tree()
                        } else {
                            JsonView::Null
                        },
                ),
            ),
            Json::Object(members) => JsonView::Object(members_map(Json::list(members))),
        }
    }

    /// The trees of an object's members, each under its key.
    pub open spec fn list(members: Vec<(String, Json)>) -> Seq<(Seq<char>, JsonView)>
        decreases members,
    {
        Seq::new(
            members@.len(),
            |i: int|
                if 0 <= i < members@.len() {
                    (members@[i].0@, members@[i].1.tree())
                } else {
                    (Seq::empty(), JsonView::Null)
                },
        )
    }
}

impl View for Json {
    type V = JsonView;

    open spec fn view(&self) -> JsonView {
        self.tree()
    }
}

/// What a `serde_json::Value` holds: its JSON tree.
pub uninterp spec fn value_json(value: serde_json::Value) -> JsonView;

/// The topmost level of a `serde_json::Value`, with what stands below it still
/// in `serde_json`'s form.
pub enum ValueParts {
    Null,
    Bool(bool),
    Number(serde_json::Number),
    Str(String),
    Array(Vec<serde_json::Value>),
    Object(Vec<(String, serde_json::Value)>),
}

/// The trees of a list of values.
pub open spec fn item_trees(items: Seq<serde_json::Value>) -> Seq<JsonView> {
    items.map_values(|item: serde_json::Value| value_json(item))
}

/// The trees of a list of members, each under its key.
pub open spec fn member_trees(members: Seq<(String, serde_json::Value)>) -> Seq<
    (Seq<char>, JsonView),
> {
    members.map_values(|member: (String, serde_json::Value)| (member.0@, value_json(member.1)))
}

/// No key occurs twice.
pub open spec fn keys_differ(members: Seq<(Seq<char>, JsonView)>) -> bool {
    forall|i: int, j: int|
        0 <= i < j < members.len() ==> (#[trigger] members[i]).0 != (#[trigger] members[j]).0
}

impl ValueParts {
    /// The tree of the value that has these parts.
    pub open spec fn tree(self) -> JsonView {
        match self {
            ValueParts::Null => JsonView::Null,
            ValueParts::Bool(b) => JsonView::Bool(b),
            ValueParts::Number(n) => JsonView::Number(n),
            ValueParts::Str(s) => JsonView::Str(s@),
            ValueParts::Array(items) => JsonView::Array(item_trees(items@)),
            ValueParts::Object(members) => JsonView::Object(members_map(member_trees(members@))),
        }
    }
}

/// Takes the variants of `serde_json::Value` apart: each gives the part of the
/// same kind with the same content. The keys of the `serde_json::Map` behind an
/// object differ from each other.
#[verifier::external_body]
fn value_parts(value: serde_json::Value) -> (parts: ValueParts)
    ensures
        parts.tree() == value_json(value),
        parts matches ValueParts::Object(members) ==> keys_differ(member_trees(members@)),
{
    match value {
        serde_json::Value::Null => ValueParts::Null,
        serde_json::Value::Bool(b) => ValueParts::Bool(b),
        serde_json::Value::Number(n) => ValueParts::Number(n),
        serde_json::Value::String(s) => ValueParts::Str(s),
        serde_json::Value::Array(items) => ValueParts::Array(items),
        serde_json::Value::Object(members) => ValueParts::Object(members.into_iter().collect()),
    }
}

/// Puts a `serde_json::Value` together from its parts: the variant of the same
/// kind with the same content. The keys of an object's members are to differ
/// from each other, so that the `serde_json::Map` has all of them.
#[verifier::external_body]
fn parts_value(parts: ValueParts) -> (value: serde_json::Value)
    requires
        parts matches ValueParts::Object(members) ==> keys_differ(member_trees(members@)),
    ensures
        value_json(value) == parts.tree(),
{
    match parts {
        ValueParts::Null => serde_json::Value::Null,
        ValueParts::Bool(b) => serde_json::Value::Bool(b),
        ValueParts::Number(n) => serde_json::Value::Number(n),
        ValueParts::Str(s) => serde_json::Value::String(s),
        ValueParts::Array(items) => serde_json::Value::Array(items),
        ValueParts::Object(members) => serde_json::Value::Object(members.into_iter().collect()),
    }
}

/// Where keys differ, every member of the list is a member of the map.
proof fn lemma_members_map_has(members: Seq<(Seq<char>, JsonView)>, i: int)
    requires
        keys_differ(members),
        0 <= i < members.len(),
    ensures
        members_map(members).contains_key(members[i].0),
        members_map(members)[members[i].0] == members[i].1,
    decreases members.len(),
{
    if i < members.len() - 1 {
        let front = members.drop_last();
        assert(forall|j: int| 0 <= j < front.len() ==> front[j] == members[j]);
        lemma_members_map_has(front, i);
        assert(front[i] == members[i]);
        assert(members[i].0 != members[members.len() - 1].0);
    }
}

/// The map of a list has finitely many keys.
proof fn lemma_members_map_finite(members: Seq<(Seq<char>, JsonView)>)
    ensures
        members_map(members).dom().finite(),
    decreases members.len(),
{
    if members.len() > 0 {
        lemma_members_map_finite(members.drop_last());
    }
}

impl Json {
    /// The tree of a `serde_json::Value`.
    pub fn from_value(value: serde_json::Value) -> (json: Json)
        ensures
            json@ == value_json(value),
        decreases value_json(value),
    {
        let ghost whole = value_json(value);
        match value_parts(value) {
            ValueParts::Null => Json::Null,
            ValueParts::Bool(b) => Json::Bool(b),
            ValueParts::Number(n) => Json::Number(n),
            ValueParts::Str(s) => Json::Str(s),
            ValueParts::Array(items) => {
                let ghost all = items@;
                let mut out: Vec<Json> = Vec::new();
                for item in it: items.into_iter()
                    invariant
                        it.seq() == all,
                        whole == JsonView::Array(item_trees(all)),
                        whole == value_json(value),
                        out@.len() == it.index(),
                        forall|k: int|
                            0 <= k < out@.len() ==> (#[trigger] out@[k])@ == value_json(all[k]),
                {
                    proof {
                        assert(item == all[it.index() as int]);
                        assert(whole->Array_0[it.index() as int] == value_json(item));
                        assert(decreases_to!(whole => whole->Array_0));
                    }
                    out.push(Json::from_value(item));
                }
                let json = Json::Array(out);
                assert(json@->Array_0 =~= item_trees(all));
                json
            },
            ValueParts::Object(members) => {
                let ghost all = members@;
                let ghost trees = member_trees(all);
                let mut out: Vec<(String, Json)> = Vec::new();
                for member in it: members.into_iter()
                    invariant
                        it.seq() == all,
                        trees == member_trees(all),
                        keys_differ(trees),
                        whole == JsonView::Object(members_map(trees)),
                        whole == value_json(value),
                        out@.len() == it.index(),
                        forall|k: int|
                            0 <= k < out@.len() ==> ((#[trigger] out@[k]).0@, out@[k].1@)
                                == trees[k],
                {
                    proof {
                        assert(member == all[it.index() as int]);
                        lemma_members_map_has(trees, it.index() as int);
                        lemma_members_map_finite(trees);
                        assert(whole->Object_0[member.0@] == value_json(member.1));
                        assert(decreases_to!(whole => whole->Object_0));
                    }
                    out.push((member.0, Json::from_value(member.1)));
                }
                assert(Json::list(out) =~= trees) by {
                    reveal_with_fuel(Json::list, 2);
                    assert forall|k: int| 0 <= k < out@.len() implies Json::list(out)[k] == trees[k] by {
                        assert((out@[k].0@, out@[k].1@) == trees[k]);
                    }
                }
                proof {
                    reveal_with_fuel(Json::tree, 2);
                }
                Json::Object(out)
            },
        }
    }
}

/// Members at the end of the list that have another key do not bear on what
/// stands under this one.
proof fn lemma_members_map_skips(members: Seq<(Seq<char>, JsonView)>, i: int, key: Seq<char>)
    requires
        0 <= i <= members.len(),
        forall|j: int| i <= j < members.len() ==> (#[trigger] members[j]).0 != key,
    ensures
        JsonView::Object(members_map(members)).get(key) == JsonView::Object(
            members_map(members.take(i)),
        ).get(key),
    decreases members.len() - i,
{
    if i < members.len() {
        lemma_members_map_skips(members, i + 1, key);
        assert(members.take(i + 1).drop_last() =~= members.take(i));
        assert(members.take(i + 1).last() == members[i]);
    } else {
        assert(members.take(i) =~= members);
    }
}

/// Where among the members the one stands that counts for a key.
fn position(members: &Vec<(String, Json)>, key: &str) -> (found: Option<usize>)
    ensures
        match found {
            Some(i) => i < members@.len() && members@[i as int].0@ == key@ && JsonView::Object(
                members_map(Json::list(*members)),
            ).get(key@) == Some(members@[i as int].1@),
            None => JsonView::Object(members_map(Json::list(*members))).get(key@) is None,
        },
        forall|j: int|
            0 <= j < members@.len() && (found is None || found->0 < j) ==> (
            #[trigger] members@[j]).0@ != key@,
{
    let wanted = key.to_owned();
    let ghost trees = Json::list(*members);
    proof {
        reveal_with_fuel(Json::list, 2);
        assert(trees.len() == members@.len());
        assert forall|k: int| 0 <= k < members@.len() implies #[trigger] trees[k] == (
            members@[k].0@,
            members@[k].1@,
        ) by {}
    }
    let mut i: usize = members.len();
    while i > 0
        invariant
            i <= members@.len(),
            wanted@ == key@,
            trees == Json::list(*members),
            trees.len() == members@.len(),
            forall|k: int|
                0 <= k < members@.len() ==> #[trigger] trees[k] == (members@[k].0@, members@[k].1@),
            forall|j: int| i <= j < trees.len() ==> (#[trigger] trees[j]).0 != key@,
            forall|j: int| i <= j < members@.len() ==> (#[trigger] members@[j]).0@ != key@,
        decreases i,
    {
        i = i - 1;
        if members[i].0 == wanted {
            proof {
                lemma_members_map_skips(trees, i + 1, key@);
                assert(trees.take(i + 1).last() == trees[i as int]);
            }
            return Some(i);
        }
        assert(trees[i as int].0 != key@);
    }
    proof {
        lemma_members_map_skips(trees, 0, key@);
        assert(trees.take(0).len() == 0);
    }
    None
}

/// The keys of the map are those of the list.
proof fn lemma_members_map_keys(members: Seq<(Seq<char>, JsonView)>, key: Seq<char>)
    ensures
        members_map(members).contains_key(key) <==> exists|i: int|
            0 <= i < members.len() && (#[trigger] members[i]).0 == key,
    decreases members.len(),
{
    if members.len() > 0 {
        let front = members.drop_last();
        lemma_members_map_keys(front, key);
        if members_map(front).contains_key(key) {
            let i = choose|i: int| 0 <= i < front.len() && (#[trigger] front[i]).0 == key;
            assert(members[i].0 == key);
        }
        if exists|i: int| 0 <= i < members.len() && (#[trigger] members[i]).0 == key {
            let i = choose|i: int| 0 <= i < members.len() && (#[trigger] members[i]).0 == key;
            if i < front.len() {
                assert(front[i].0 == key);
            }
        }
        assert(members[members.len() - 1] == members.last());
    }
}

/// Whether one of the members has this key.
fn has_key(members: &Vec<(String, serde_json::Value)>, key: &String) -> (found: bool)
    ensures
        found <==> exists|i: int|
            0 <= i < members@.len() && (#[trigger] member_trees(members@)[i]).0 == key@,
{
    let ghost trees = member_trees(members@);
    let mut i: usize = 0;
    while i < members.len()
        invariant
            i <= members@.len(),
            trees == member_trees(members@),
            forall|j: int| 0 <= j < i ==> (#[trigger] trees[j]).0 != key@,
        decreases members@.len() - i,
    {
        assert(trees[i as int].0 == members@[i as int].0@);
        if members[i].0 == *key {
            return true;
        }
        i = i + 1;
    }
    false
}

impl Json {
    /// The `serde_json::Value` of a tree.
    pub fn into_value(self) -> (value: serde_json::Value)
        ensures
            value_json(value) == self@,
        decreases self,
    {
        let ghost whole = self;
        proof {
            reveal_with_fuel(Json::tree, 2);
            reveal_with_fuel(Json::list, 2);
        }
        match self {
            Json::Null => parts_value(ValueParts::Null),
            Json::Bool(b) => parts_value(ValueParts::Bool(b)),
            Json::Number(n) => parts_value(ValueParts::Number(n)),
            Json::Str(s) => parts_value(ValueParts::Str(s)),
            Json::Array(items) => {
                let ghost given = items;
                let mut out: Vec<serde_json::Value> = Vec::new();
                for item in it: items.into_iter()
                    invariant
                        it.seq() == given@,
                        whole == Json::Array(given),
                        whole == self,
                        out@.len() == it.index(),
                        forall|k: int|
                            0 <= k < out@.len() ==> value_json(#[trigger] out@[k]) == given@[k]@,
                {
                    proof {
                        assert(item == given@[it.index() as int]);
                        assert(decreases_to!(whole => whole->Array_0));
                        assert(decreases_to!(given => given@[it.index() as int]));
                    }
                    out.push(item.into_value());
                }
                assert(item_trees(out@) =~= whole@->Array_0);
                parts_value(ValueParts::Array(out))
            },
            Json::Object(members) => {
                let ghost given = members;
                let ghost trees = Json::list(given);
                let mut rest = members;
                let mut out: Vec<(String, serde_json::Value)> = Vec::new();
                let mut i: usize = rest.len();
                proof {
                    assert(given@.take(i as int) =~= given@);
                    assert(trees.take(i as int) =~= trees);
                    assert(members_map(trees) =~= members_map(trees).union_prefer_right(
                        members_map(member_trees(out@)),
                    ));
                }
                while i > 0
                    invariant
                        i <= given@.len(),
                        rest@ == given@.take(i as int),
                        trees == Json::list(given),
                        trees.len() == given@.len(),
                        forall|k: int|
                            0 <= k < given@.len() ==> #[trigger] trees[k] == (
                                given@[k].0@,
                                given@[k].1@,
                            ),
                        whole == Json::Object(given),
                        whole == self,
                        keys_differ(member_trees(out@)),
                        members_map(trees) == members_map(trees.take(i as int)).union_prefer_right(
                            members_map(member_trees(out@)),
                        ),
                    decreases i,
                {
                    let ghost kept = member_trees(out@);
                    let ghost next = trees[i - 1];
                    let ghost front = members_map(trees.take(i - 1));
                    proof {
                        assert(trees.take(i as int).drop_last() =~= trees.take(i - 1));
                        assert(trees.take(i as int).last() == next);
                        assert(rest@.last() == given@[i - 1]);
                        assert(rest@.drop_last() =~= given@.take(i - 1));
                    }
                    i = i - 1;
                    if let Some(member) = rest.pop() {
                        proof {
                            assert(member == given@[i as int]);
                            assert(decreases_to!(whole => whole->Object_0));
                            assert(decreases_to!(given => given@[i as int]));
                            assert(decreases_to!(member => member.1));
                            lemma_members_map_keys(kept, next.0);
                        }
                        if has_key(&out, &member.0) {
                            assert(front.insert(next.0, next.1).union_prefer_right(
                                members_map(kept),
                            ) =~= front.union_prefer_right(members_map(kept)));
                        } else {
                            out.push((member.0, member.1.into_value()));
                            proof {
                                assert(member_trees(out@) =~= kept.push(next));
                                assert(kept.push(next).drop_last() =~= kept);
                                assert(front.insert(next.0, next.1).union_prefer_right(
                                    members_map(kept),
                                ) =~= front.union_prefer_right(
                                    members_map(kept).insert(next.0, next.1),
                                ));
                            }
                        }
                    }
                }
                proof {
                    assert(trees.take(0).len() == 0);
                    assert(members_map(trees) =~= members_map(member_trees(out@)));
                }
                parts_value(ValueParts::Object(out))
            },
        }
    }

    /// The member under `key`: there is none where the tree is no object.
    pub fn get(&self, key: &str) -> (member: Option<&Json>)
        ensures
            match member {
                Some(found) => self@.get(key@) == Some(found@),
                None => self@.get(key@) is None,
            },
            match (*self, member) {
                (Json::Object(members), Some(found)) => exists|i: int|
                    0 <= i < members@.len() && (#[trigger] members@[i]).0@ == key@ && *found
                        == members@[i].1 && forall|j: int|
                        i < j < members@.len() ==> (#[trigger] members@[j]).0@ != key@,
                (Json::Object(members), None) => forall|j: int|
                    0 <= j < members@.len() ==> (#[trigger] members@[j]).0@ != key@,
                (_, found) => found is None,
            },
    {
        proof {
            reveal_with_fuel(Json::tree, 2);
        }
        match self {
            Json::Object(members) => match position(members, key) {
                Some(i) => Some(&members[i].1),
                None => None,
            },
            _ => None,
        }
    }

    /// The member under `key`, taken out of the tree.
    pub fn into_member(self, key: &str) -> (member: Option<Json>)
        ensures
            match member {
                Some(found) => self@.get(key@) == Some(found@),
                None => self@.get(key@) is None,
            },
            match (self, member) {
                (Json::Object(members), Some(found)) => exists|i: int|
                    0 <= i < members@.len() && (#[trigger] members@[i]).0@ == key@ && found
                        == members@[i].1 && forall|j: int|
                        i < j < members@.len() ==> (#[trigger] members@[j]).0@ != key@,
                (Json::Object(members), None) => forall|j: int|
                    0 <= j < members@.len() ==> (#[trigger] members@[j]).0@ != key@,
                (_, found) => found is None,
            },
    {
        proof {
            reveal_with_fuel(Json::tree, 2);
        }
        match self {
            Json::Object(members) => match position(&members, key) {
                Some(i) => {
                    let mut members = members;
                    Some(members.swap_remove(i).1)
                },
                None => None,
            },
            _ => None,
        }
    }

    /// The text of a JSON string, and nothing for any other tree.
    pub fn as_str(&self) -> (text: Option<&String>)
        ensures
            match text {
                Some(found) => self@.as_str() == Some(found@),
                None => self@.as_str() is None,
            },
    {
        proof {
            reveal_with_fuel(Json::tree, 2);
        }
        match self {
            Json::Str(text) => Some(text),
            _ => None,
        }
    }
}

/// A member that is there is found, under every key, and nothing is found under a
/// key that no member has, nor in a tree that is no object.
pub proof fn members_are_found(members: Map<Seq<char>, JsonView>, key: Seq<char>, other: JsonView)
    requires
        other !is Object,
    ensures
        members.contains_key(key) ==> JsonView::Object(members).get(key) == Some(members[key]),
        !members.contains_key(key) ==> JsonView::Object(members).get(key) is None,
        other.get(key) is None,
{
}

/// A JSON string gives its text, and no other tree gives one.
pub proof fn only_strings_have_a_text(text: Seq<char>, other: JsonView)
    requires
        other !is Str,
    ensures
        JsonView::Str(text).as_str() == Some(text),
        other.as_str() is None,
{
}

/// Under each key that is among the members of an object stands the last of the
/// members with that key, and no other keys are there.
pub proof fn last_member_counts(members: Seq<(Seq<char>, JsonView)>, key: Seq<char>)
    ensures
        forall|i: int|
            0 <= i < members.len() && (#[trigger] members[i]).0 == key && (forall|j: int|
                i < j < members.len() ==> (#[trigger] members[j]).0 != key)
                ==> members_map(members).contains_key(key) && members_map(members)[key]
                == members[i].1,
        (forall|j: int| 0 <= j < members.len() ==> (#[trigger] members[j]).0 != key)
            ==> !members_map(members).contains_key(key),
{
    lemma_members_map_keys(members, key);
    assert forall|i: int|
        0 <= i < members.len() && (#[trigger] members[i]).0 == key && (forall|j: int|
            i < j < members.len() ==> (#[trigger] members[j]).0 != key) implies members_map(
        members,
    ).contains_key(key) && members_map(members)[key] == members[i].1 by {
        lemma_members_map_skips(members, i + 1, key);
        assert(members.take(i + 1).last() == members[i]);
    }
}

/// A tree stands for just what it holds: of a list the trees of its items, in
/// their order, and of an object the trees of the members that count.
pub proof fn tree_mirrors_what_it_holds(json: Json)
    ensures
        match json {
            Json::Null => json@ == JsonView::Null,
            Json::Bool(b) => json@ == JsonView::Bool(b),
            Json::Number(n) => json@ == JsonView::Number(n),
            Json::Str(s) => json@ == JsonView::Str(s@),
            Json::Array(items) => {
                &&& json@ is Array
                &&& json@->Array_0.len() == items@.len()
                &&& forall|i: int|
                    0 <= i < items@.len() ==> #[trigger] json@->Array_0[i] == items@[i]@
            },
            Json::Object(members) => {
                &&& json@ is Object
                &&& forall|key: Seq<char>| #[trigger]
                    json@->Object_0.contains_key(key) ==> exists|i: int|
                        0 <= i < members@.len() && (#[trigger] members@[i]).0@ == key
                &&& forall|i: int|
                    0 <= i < members@.len() && (forall|j: int|
                        i < j < members@.len() ==> (#[trigger] members@[j]).0@
                            != members@[i].0@) ==> json@->Object_0.contains_key(
                        (#[trigger] members@[i]).0@,
                    ) && json@->Object_0[members@[i].0@] == members@[i].1@
            },
        },
{
    reveal_with_fuel(Json::tree, 2);
    reveal_with_fuel(Json::list, 2);
    if let Json::Object(members) = json {
        let trees = Json::list(members);
        assert forall|k: int| 0 <= k < members@.len() implies #[trigger] trees[k] == (
            members@[k].0@,
            members@[k].1@,
        ) by {}
        assert forall|key: Seq<char>| #[trigger]
            json@->Object_0.contains_key(key) implies exists|i: int|
            0 <= i < members@.len() && (#[trigger] members@[i]).0@ == key by {
            lemma_members_map_keys(trees, key);
            let i = choose|i: int| 0 <= i < trees.len() && (#[trigger] trees[i]).0 == key;
            assert(members@[i].0@ == key);
        }
        assert forall|i: int|
            0 <= i < members@.len() && (forall|j: int|
                i < j < members@.len() ==> (#[trigger] members@[j]).0@
                    != members@[i].0@) implies json@->Object_0.contains_key(
            (#[trigger] members@[i]).0@,
        ) && json@->Object_0[members@[i].0@] == members@[i].1@ by {
            last_member_counts(trees, members@[i].0@);
            assert(trees[i].0 == members@[i].0@);
            assert forall|j: int| i < j < trees.len() implies (#[trigger] trees[j]).0
                != members@[i].0@ by {
                assert(members@[j].0@ != members@[i].0@);
            }
        }
    }
}

/// The parts of a value stand for the tree of a list of just these items, or of
/// an object of just these members.
pub proof fn parts_mirror_what_they_hold(parts: ValueParts)
    requires
        parts matches ValueParts::Object(members) ==> forall|i: int, j: int|
            0 <= i < j < members@.len() ==> (#[trigger] members@[i]).0@ != (
            #[trigger] members@[j]).0@,
    ensures
        match parts {
            ValueParts::Null => parts.tree() == JsonView::Null,
            ValueParts::Bool(b) => parts.tree() == JsonView::Bool(b),
            ValueParts::Number(n) => parts.tree() == JsonView::Number(n),
            ValueParts::Str(s) => parts.tree() == JsonView::Str(s@),
            ValueParts::Array(items) => {
                &&& parts.tree() is Array
                &&& parts.tree()->Array_0.len() == items@.len()
                &&& forall|i: int|
                    0 <= i < items@.len() ==> #[trigger] parts.tree()->Array_0[i] == value_json(
                        items@[i],
                    )
            },
            ValueParts::Object(members) => {
                &&& parts.tree() is Object
                &&& forall|key: Seq<char>| #[trigger]
                    parts.tree()->Object_0.contains_key(key) ==> exists|i: int|
                        0 <= i < members@.len() && (#[trigger] members@[i]).0@ == key
                &&& forall|i: int|
                    0 <= i < members@.len() ==> parts.tree()->Object_0.contains_key(
                        (#[trigger] members@[i]).0@,
                    ) && parts.tree()->Object_0[members@[i].0@] == value_json(members@[i].1)
            },
        },
{
    if let ValueParts::Object(members) = parts {
        let trees = member_trees(members@);
        assert forall|k: int| 0 <= k < members@.len() implies #[trigger] trees[k] == (
            members@[k].0@,
            value_json(members@[k].1),
        ) by {}
        assert forall|key: Seq<char>| #[trigger]
            parts.tree()->Object_0.contains_key(key) implies exists|i: int|
            0 <= i < members@.len() && (#[trigger] members@[i]).0@ == key by {
            lemma_members_map_keys(trees, key);
            let i = choose|i: int| 0 <= i < trees.len() && (#[trigger] trees[i]).0 == key;
            assert(members@[i].0@ == key);
        }
        assert forall|i: int| 0 <= i < members@.len() implies parts.tree()->Object_0.contains_key(
            (#[trigger] members@[i]).0@,
        ) && parts.tree()->Object_0[members@[i].0@] == value_json(members@[i].1) by {
            assert(keys_differ(trees)) by {
                assert forall|a: int, b: int| 0 <= a < b < trees.len() implies (
                #[trigger] trees[a]).0 != (#[trigger] trees[b]).0 by {
                    assert(members@[a].0@ != members@[b].0@);
                }
            }
            lemma_members_map_has(trees, i);
            assert(trees[i].0 == members@[i].0@);
        }
    }
}

}
