//! Language-keyed messages (`sh:message`): at most one message per language
//! tag, plus one without a tag.
use vstd::prelude::*;
use crate::term::{Literal, LiteralV, clone_opt_string, opt_string_eq, opt_view};
use crate::text::{push_str, seq_join, views, join};

verus! {

/// The view of one entry: the language tag and the message.
pub open spec fn entry_view(e: (Option<String>, String)) -> (Option<Seq<char>>, Seq<char>) {
    (opt_view(e.0), e.1@)
}

/// The views of a sequence of entries.
pub open spec fn entry_views(s: Seq<(Option<String>, String)>) -> Seq<(Option<Seq<char>>, Seq<char>)> {
    s.map_values(|e: (Option<String>, String)| entry_view(e))
}

/// No language tag occurs twice.
pub open spec fn keys_unique(s: Seq<(Option<Seq<char>>, Seq<char>)>) -> bool {
    forall|i: int, j: int| 0 <= i < s.len() && 0 <= j < s.len() && i != j ==> s[i].0 != s[j].0
}

/// The map that a sequence of entries describes, later entries winning.
pub open spec fn map_of(s: Seq<(Option<Seq<char>>, Seq<char>)>) -> Map<Option<Seq<char>>, Seq<char>>
    decreases s.len(),
{
    if s.len() == 0 {
        Map::empty()
    } else {
        map_of(s.drop_last()).insert(s.last().0, s.last().1)
    }
}

/// The keys of the map are the keys of the entries.
pub proof fn lemma_map_of_dom(s: Seq<(Option<Seq<char>>, Seq<char>)>, k: Option<Seq<char>>)
    ensures
        map_of(s).dom().contains(k) <==> exists|i: int| 0 <= i < s.len() && s[i].0 == k,
    decreases s.len(),
{
    if s.len() > 0 {
        lemma_map_of_dom(s.drop_last(), k);
        if exists|i: int| 0 <= i < s.len() && s[i].0 == k {
            let i = choose|i: int| 0 <= i < s.len() && s[i].0 == k;
            if i < s.len() - 1 {
                assert(s.drop_last()[i] == s[i]);
            }
        }
        if exists|i: int| 0 <= i < s.drop_last().len() && s.drop_last()[i].0 == k {
            let i = choose|i: int| 0 <= i < s.drop_last().len() && s.drop_last()[i].0 == k;
            assert(s[i] == s.drop_last()[i]);
        }
    }
}

/// With unique keys, each entry is what the map holds for its key.
pub proof fn lemma_map_of_entry(s: Seq<(Option<Seq<char>>, Seq<char>)>, i: int)
    requires
        keys_unique(s),
        0 <= i < s.len(),
    ensures
        map_of(s).dom().contains(s[i].0),
        map_of(s)[s[i].0] == s[i].1,
    decreases s.len(),
{
    if i < s.len() - 1 {
        let r = s.drop_last();
        assert(r[i] == s[i]);
        assert(keys_unique(r)) by {
            assert forall|a: int, b: int| 0 <= a < r.len() && 0 <= b < r.len() && a != b implies r[a].0
                != r[b].0 by {
                assert(r[a] == s[a] && r[b] == s[b]);
            }
        }
        lemma_map_of_entry(r, i);
        assert(s[i].0 != s.last().0);
    }
}

/// Replacing the message of an entry replaces it in the map.
pub proof fn lemma_map_of_update(s: Seq<(Option<Seq<char>>, Seq<char>)>, i: int, v: Seq<char>)
    requires
        keys_unique(s),
        0 <= i < s.len(),
    ensures
        map_of(s.update(i, (s[i].0, v))) == map_of(s).insert(s[i].0, v),
        keys_unique(s.update(i, (s[i].0, v))),
    decreases s.len(),
{
    let k = s[i].0;
    let t = s.update(i, (k, v));
    assert(keys_unique(t)) by {
        assert forall|a: int, b: int| 0 <= a < t.len() && 0 <= b < t.len() && a != b implies t[a].0 != t[b].0 by {
            assert(t[a].0 == s[a].0 && t[b].0 == s[b].0);
        }
    }
    let r = s.drop_last();
    if i == s.len() - 1 {
        assert(t.drop_last() =~= r);
        assert(map_of(s).insert(k, v) =~= map_of(r).insert(k, v));
    } else {
        assert(keys_unique(r)) by {
            assert forall|a: int, b: int| 0 <= a < r.len() && 0 <= b < r.len() && a != b implies r[a].0
                != r[b].0 by {
                assert(r[a] == s[a] && r[b] == s[b]);
            }
        }
        assert(r[i] == s[i]);
        lemma_map_of_update(r, i, v);
        assert(t.drop_last() =~= r.update(i, (k, v)));
        assert(t.last() == s.last());
        assert(s.last().0 != k);
        assert(map_of(t) =~= map_of(s).insert(k, v));
    }
}

/// What std's `{:?}` formatting makes of a string: the quoted, escaped form.
pub uninterp spec fn debug_quoted(s: Seq<char>) -> Seq<char>;

/// The quoted, escaped form of `s` (std `{:?}` on a `str`).
#[verifier::external_body]
pub fn debug_quote(s: &str) -> (r: String)
    ensures
        r@ == debug_quoted(s@),
{
    format!("{:?}", s)
}

/// The display of one entry: `default: "msg"` or `"lang": "msg"`.
pub open spec fn show_entry(e: (Option<Seq<char>>, Seq<char>)) -> Seq<char> {
    match e.0 {
        None => "default: "@ + debug_quoted(e.1),
        Some(l) => debug_quoted(l) + ": "@ + debug_quoted(e.1),
    }
}

/// The display of a message map with the given entries.
pub open spec fn show_message_map(entries: Seq<(Option<Seq<char>>, Seq<char>)>) -> Seq<char> {
    "MessageMap {"@ + seq_join(entries.map_values(|e: (Option<Seq<char>>, Seq<char>)| show_entry(e)), ", "@)
        + "}"@
}

/// Messages keyed by an optional language tag.
pub struct MessageMap {
    entries: Vec<(Option<String>, String)>,
}

impl View for MessageMap {
    type V = Map<Option<Seq<char>>, Seq<char>>;

    closed spec fn view(&self) -> Map<Option<Seq<char>>, Seq<char>> {
        map_of(entry_views(self.entries@))
    }
}

/// Clones one entry.
fn clone_entry(e: &(Option<String>, String)) -> (r: (Option<String>, String))
    ensures
        entry_view(r) == entry_view(*e),
{
    (clone_opt_string(&e.0), e.1.clone())
}

impl MessageMap {
    #[verifier::type_invariant]
    closed spec fn inv(self) -> bool {
        keys_unique(entry_views(self.entries@))
    }

    /// The entries, in the order they were first given.
    pub closed spec fn entries_view(&self) -> Seq<(Option<Seq<char>>, Seq<char>)> {
        entry_views(self.entries@)
    }

    /// No message.
    pub fn new() -> (r: MessageMap)
        ensures
            r@ == Map::<Option<Seq<char>>, Seq<char>>::empty(),
    {
        let r = MessageMap { entries: Vec::new() };
        assert(entry_views(r.entries@) =~= Seq::<(Option<Seq<char>>, Seq<char>)>::empty());
        r
    }

    /// A single message without a language tag.
    pub fn from_message(message: String) -> (r: MessageMap)
        ensures
            r@ == Map::<Option<Seq<char>>, Seq<char>>::empty().insert(None, message@),
    {
        let r = MessageMap::new();
        r.with_message(None, message)
    }

    fn find(&self, lang: &Option<String>) -> (r: Option<usize>)
        ensures
            match r {
                Some(i) => i < self.entries_view().len() && self.entries_view()[i as int].0 == opt_view(*lang),
                None => forall|i: int|
                    0 <= i < self.entries_view().len() ==> self.entries_view()[i].0 != opt_view(*lang),
            },
    {
        let mut i: usize = 0;
        while i < self.entries.len()
            invariant
                i <= self.entries.len(),
                forall|j: int| 0 <= j < i ==> entry_views(self.entries@)[j].0 != opt_view(*lang),
            decreases self.entries.len() - i,
        {
            assert(entry_views(self.entries@)[i as int] == entry_view(self.entries@[i as int]));
            if opt_string_eq(&self.entries[i].0, lang) {
                return Some(i);
            }
            i = i + 1;
        }
        None
    }

    /// Sets the message for `lang`, replacing any earlier one.
    pub fn with_message(self, lang: Option<String>, message: String) -> (r: MessageMap)
        ensures
            r@ == self@.insert(opt_view(lang), message@),
    {
        proof {
            use_type_invariant(&self);
        }
        let ghost k = opt_view(lang);
        match self.find(&lang) {
            Some(i) => {
                let mut entries = self.entries;
                let ghost before = entries@;
                entries.set(i, (lang, message));
                proof {
                    lemma_map_of_update(entry_views(before), i as int, message@);
                    assert(entry_views(entries@) =~= entry_views(before).update(
                        i as int,
                        (entry_views(before)[i as int].0, message@),
                    ));
                }
                MessageMap { entries }
            },
            None => {
                let mut entries = self.entries;
                let ghost before = entries@;
                entries.push((lang, message));
                proof {
                    assert(entry_views(entries@) =~= entry_views(before).push((k, message@)));
                    assert(entry_views(entries@).drop_last() =~= entry_views(before));
                    let s = entry_views(entries@);
                    assert forall|a: int, b: int| 0 <= a < s.len() && 0 <= b < s.len() && a != b implies s[a].0
                        != s[b].0 by {
                        if a < s.len() - 1 && b < s.len() - 1 {
                            assert(s[a] == entry_views(before)[a] && s[b] == entry_views(before)[b]);
                        } else if a < s.len() - 1 {
                            assert(s[a] == entry_views(before)[a]);
                        } else {
                            assert(s[b] == entry_views(before)[b]);
                        }
                    }
                }
                MessageMap { entries }
            },
        }
    }

    /// A copy with the same entries.
    pub fn duplicate(&self) -> (r: MessageMap)
        ensures
            r.entries_view() == self.entries_view(),
            r@ == self@,
    {
        proof {
            use_type_invariant(self);
        }
        let entries = self.messages();
        MessageMap { entries }
    }

    /// The entries (language tag, message), one per language tag.
    pub fn messages(&self) -> (r: Vec<(Option<String>, String)>)
        ensures
            entry_views(r@) == self.entries_view(),
            map_of(entry_views(r@)) == self@,
            keys_unique(entry_views(r@)),
    {
        proof {
            use_type_invariant(self);
        }
        let mut r: Vec<(Option<String>, String)> = Vec::new();
        let mut i: usize = 0;
        while i < self.entries.len()
            invariant
                i <= self.entries.len(),
                entry_views(r@) == entry_views(self.entries@).take(i as int),
            decreases self.entries.len() - i,
        {
            let e = clone_entry(&self.entries[i]);
            let ghost before = r@;
            r.push(e);
            assert(entry_views(r@) =~= entry_views(before).push(entry_view(e)));
            assert(entry_views(self.entries@).take(i as int + 1) =~= entry_views(self.entries@).take(
                i as int,
            ).push(entry_views(self.entries@)[i as int]));
            i = i + 1;
        }
        assert(entry_views(self.entries@).take(self.entries.len() as int) =~= entry_views(self.entries@));
        r
    }

    /// The entries, as the messages are walked.
    pub fn iter(&self) -> (r: Vec<(Option<String>, String)>)
        ensures
            entry_views(r@) == self.entries_view(),
            map_of(entry_views(r@)) == self@,
    {
        self.messages()
    }

    /// Each message as a string literal tagged with its language.
    pub fn iter_literals(&self) -> (r: Vec<Literal>)
        ensures
            r@.len() == self.entries_view().len(),
            forall|i: int|
                0 <= i < r@.len() ==> (#[trigger] r@[i])@ == (LiteralV::Str {
                    lexical: self.entries_view()[i].1,
                    lang: self.entries_view()[i].0,
                }),
    {
        let mut r: Vec<Literal> = Vec::new();
        let mut i: usize = 0;
        while i < self.entries.len()
            invariant
                i <= self.entries.len(),
                r@.len() == i,
                forall|j: int|
                    0 <= j < i ==> (#[trigger] r@[j])@ == (LiteralV::Str {
                        lexical: entry_views(self.entries@)[j].1,
                        lang: entry_views(self.entries@)[j].0,
                    }),
            decreases self.entries.len() - i,
        {
            let e = &self.entries[i];
            assert(entry_views(self.entries@)[i as int] == entry_view(*e));
            r.push(Literal::StringLiteral { lexical_form: e.1.clone(), lang: clone_opt_string(&e.0) });
            i = i + 1;
        }
        r
    }

    /// The display form, entries in the order they were first given.
    pub fn to_display(&self) -> (r: String)
        ensures
            r@ == show_message_map(self.entries_view()),
    {
        let mut parts: Vec<String> = Vec::new();
        let mut i: usize = 0;
        while i < self.entries.len()
            invariant
                i <= self.entries.len(),
                views(parts@) == entry_views(self.entries@).take(i as int).map_values(
                    |e: (Option<Seq<char>>, Seq<char>)| show_entry(e),
                ),
            decreases self.entries.len() - i,
        {
            let e = &self.entries[i];
            assert(entry_views(self.entries@)[i as int] == entry_view(*e));
            let mut part = match &e.0 {
                None => String::new(),
                Some(l) => debug_quote(l.as_str()),
            };
            match &e.0 {
                None => push_str(&mut part, "default: "),
                Some(_) => push_str(&mut part, ": "),
            }
            let quoted = debug_quote(e.1.as_str());
            push_str(&mut part, quoted.as_str());
            let ghost before = parts@;
            parts.push(part);
            proof {
                assert(views(parts@) =~= views(before).push(part@));
                assert(entry_views(self.entries@).take(i as int + 1) =~= entry_views(self.entries@).take(
                    i as int,
                ).push(entry_views(self.entries@)[i as int]));
                assert(part@ =~= show_entry(entry_view(*e)));
                assert(entry_views(self.entries@).take(i as int + 1).map_values(
                    |e: (Option<Seq<char>>, Seq<char>)| show_entry(e),
                ) =~= entry_views(self.entries@).take(i as int).map_values(
                    |e: (Option<Seq<char>>, Seq<char>)| show_entry(e),
                ).push(part@));
            }
            i = i + 1;
        }
        assert(entry_views(self.entries@).take(self.entries.len() as int) =~= entry_views(self.entries@));
        let body = join(&parts, ", ");
        let mut r = String::new();
        push_str(&mut r, "MessageMap {");
        push_str(&mut r, body.as_str());
        push_str(&mut r, "}");
        r
    }

    /// The message for `lang`, if there is one.
    pub fn get(&self, lang: Option<&str>) -> (r: Option<String>)
        ensures
            match lang {
                Some(l) => {
                    &&& r is Some <==> self@.dom().contains(Some(l@))
                    &&& r matches Some(m) ==> m@ == self@[Some(l@)]
                },
                None => {
                    &&& r is Some <==> self@.dom().contains(None)
                    &&& r matches Some(m) ==> m@ == self@[None]
                },
            },
    {
        proof {
            use_type_invariant(self);
        }
        let key: Option<String> = match lang {
            Some(l) => Some(l.to_string()),
            None => None,
        };
        match self.find(&key) {
            Some(i) => {
                proof {
                    lemma_map_of_entry(entry_views(self.entries@), i as int);
                }
                Some(self.entries[i].1.clone())
            },
            None => {
                proof {
                    lemma_map_of_dom(entry_views(self.entries@), opt_view(key));
                }
                None
            },
        }
    }

    /// Adds the messages of `other`: on a shared language tag, `other`'s
    /// message wins when `over` holds, and `self`'s is kept otherwise.
    pub fn merge(self, other: MessageMap, over: bool) -> (r: MessageMap)
        ensures
            r@ == if over {
                self@.union_prefer_right(other@)
            } else {
                other@.union_prefer_right(self@)
            },
    {
        proof {
            use_type_invariant(&other);
        }
        let items = other.messages();
        let ghost start = self@;
        let ghost om = other@;
        let mut acc = self;
        let mut i: usize = 0;
        while i < items.len()
            invariant
                i <= items.len(),
                keys_unique(entry_views(items@)),
                map_of(entry_views(items@)) == om,
                acc@ == if over {
                    start.union_prefer_right(map_of(entry_views(items@).take(i as int)))
                } else {
                    map_of(entry_views(items@).take(i as int)).union_prefer_right(start)
                },
            decreases items.len() - i,
        {
            let e = clone_entry(&items[i]);
            let ghost prefix = entry_views(items@).take(i as int);
            assert(entry_views(items@).take(i as int + 1) =~= prefix.push(entry_views(items@)[i as int]));
            assert(entry_views(items@)[i as int] == entry_view(e));
            let lang_ref: Option<&str> = match &e.0 {
                Some(l) => Some(l.as_str()),
                None => None,
            };
            let present = acc.get(lang_ref).is_some();
            let ghost old_acc = acc@;
            if over || !present {
                acc = acc.with_message(e.0, e.1);
            }
            proof {
                let k = entry_view(e).0;
                let v = entry_view(e).1;
                let next = map_of(entry_views(items@).take(i as int + 1));
                assert(prefix.push(entry_views(items@)[i as int]).drop_last() =~= prefix);
                assert(next == map_of(prefix).insert(k, v));
                if over {
                    assert(acc@ =~= start.union_prefer_right(next));
                } else {
                    assert(present <==> old_acc.dom().contains(k));
                    assert(!map_of(prefix).dom().contains(k)) by {
                        lemma_map_of_dom(prefix, k);
                        if exists|j: int| 0 <= j < prefix.len() && prefix[j].0 == k {
                            let j = choose|j: int| 0 <= j < prefix.len() && prefix[j].0 == k;
                            assert(entry_views(items@)[j].0 == entry_views(items@)[i as int].0);
                        }
                    }
                    assert(acc@ =~= next.union_prefer_right(start));
                }
            }
            i = i + 1;
        }
        assert(entry_views(items@).take(items.len() as int) =~= entry_views(items@));
        acc
    }
}

/// A message set for a language tag is what a read for that tag returns.
pub proof fn law_get_after_with_message(m: Map<Option<Seq<char>>, Seq<char>>, k: Option<Seq<char>>, v: Seq<char>)
    ensures
        m.insert(k, v).dom().contains(k),
        m.insert(k, v)[k] == v,
        forall|other: Option<Seq<char>>| other != k ==> m.insert(k, v).dom().contains(other) == m.dom().contains(other),
{
}

/// Merging keeps every language tag of both maps; on a shared tag the
/// overriding side's message wins, and merging a map into itself changes nothing.
pub proof fn law_merge(a: Map<Option<Seq<char>>, Seq<char>>, b: Map<Option<Seq<char>>, Seq<char>>, k: Option<Seq<char>>)
    ensures
        a.union_prefer_right(b).dom().contains(k) <==> a.dom().contains(k) || b.dom().contains(k),
        b.union_prefer_right(a).dom().contains(k) <==> a.dom().contains(k) || b.dom().contains(k),
        b.dom().contains(k) ==> a.union_prefer_right(b)[k] == b[k],
        a.dom().contains(k) ==> b.union_prefer_right(a)[k] == a[k],
        a.union_prefer_right(a) == a,
{
    assert(a.union_prefer_right(a) =~= a);
}

/// The map that `sh:message` literals give: each literal's text under its
/// language tag, later literals winning.
pub open spec fn messages_of(lits: Seq<LiteralV>) -> Map<Option<Seq<char>>, Seq<char>>
    decreases lits.len(),
{
    if lits.len() == 0 {
        Map::empty()
    } else {
        messages_of(lits.drop_last()).insert(
            crate::term::literal_lang(lits.last()),
            crate::term::literal_lexical(lits.last()),
        )
    }
}

/// The messages of a shape from its `sh:message` literals; with no literal
/// there is no message, which is an error.
pub fn message(lits: &Vec<Literal>) -> (r: Result<MessageMap, crate::focus::ParseError>)
    ensures
        lits@.len() == 0 ==> (r matches Err(crate::focus::ParseError::ParseFail { msg }) && msg@
            == "No sh:message found"@),
        lits@.len() > 0 ==> (r matches Ok(m) && m@ == messages_of(lits@.map_values(|l: Literal| l@))),
{
    if lits.len() == 0 {
        return Err(crate::focus::ParseError::ParseFail { msg: crate::text::owned("No sh:message found") });
    }
    let ghost views = lits@.map_values(|l: Literal| l@);
    let mut map = MessageMap::new();
    let mut i: usize = 0;
    assert(views.take(0) =~= Seq::<LiteralV>::empty());
    while i < lits.len()
        invariant
            i <= lits.len(),
            views == lits@.map_values(|l: Literal| l@),
            map@ == messages_of(views.take(i as int)),
        decreases lits.len() - i,
    {
        let lang = lits[i].lang();
        let text = lits[i].lexical_form();
        map = map.with_message(lang, text);
        assert(views.take(i as int + 1).drop_last() =~= views.take(i as int));
        assert(views.take(i as int + 1).last() == lits@[i as int]@);
        i = i + 1;
    }
    assert(views.take(lits.len() as int) =~= views);
    Ok(map)
}

} // verus!
