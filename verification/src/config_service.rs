use vstd::prelude::*;

use crate::errors::{AppError, AppResult, ErrorKind, ErrorView};
use crate::template::{leon_parse, parse_template, pieces_view, template_error_message, Piece, TemplatePiece};

verus! {

/// A lookup result as a value.
pub open spec fn lookup_view(res: AppResult<Option<String>>) -> Result<Option<Seq<char>>, ErrorView> {
    match res {
        Ok(Some(s)) => Ok(Some(s@)),
        Ok(None) => Ok(None),
        Err(e) => Err(e@),
    }
}

/// A result carrying a string, as a value.
pub open spec fn string_result_view(res: AppResult<String>) -> Result<Seq<char>, ErrorView> {
    match res {
        Ok(s) => Ok(s@),
        Err(e) => Err(e@),
    }
}

/// Retrieves configuration values.
pub trait ConfigRetriever {
    /// What `get` answers for `key`.
    spec fn retrieved(&self, key: Seq<char>) -> Result<Option<Seq<char>>, ErrorView>;

    /// The keys for which the retriever holds a value.
    spec fn defined_keys(&self) -> Set<Seq<char>>;

    /// A retriever holds finitely many values, and answers with a value only
    /// for the keys that it holds.
    proof fn lemma_defined_keys(&self)
        ensures
            self.defined_keys().finite(),
            forall|k: Seq<char>|
                #![trigger self.retrieved(k)]
                (self.retrieved(k) matches Ok(Some(_))) ==> self.defined_keys().contains(k),
    ;

    /// Looks up the value of `key`.
    fn get(&self, key: &str) -> (res: AppResult<Option<String>>)
        ensures
            lookup_view(res) == self.retrieved(key@),
    ;
}

/// The message of the error for a key that has no value.
pub open spec fn missing_key_message(key: Seq<char>) -> Seq<char> {
    "Missing configuration key for "@ + key + "."@
}

/// The message of the error for a key whose template refers back to itself.
pub open spec fn recursive_key_message(key: Seq<char>) -> Seq<char> {
    "Recursive configuration key found: "@ + key
}

/// What `get_required` answers, given what `get` answers.
pub open spec fn required_of(found: Result<Option<Seq<char>>, ErrorView>, key: Seq<char>) -> Result<Seq<char>, ErrorView> {
    match found {
        Ok(Some(v)) => Ok(v),
        Ok(None) => Err((ErrorKind::Configuration, missing_key_message(key))),
        Err(e) => Err(e),
    }
}

/// The outcome of resolving a template key.
pub enum Resolution {
    /// The fully substituted text.
    Value(Seq<char>),
    /// The given error.
    Failure(ErrorView),
    /// A template that the template engine rejects; the error is a parse
    /// error whose message is the engine's.
    Syntax,
}

/// Puts `prefix` in front of a resolved value; failures pass through.
pub open spec fn prepend(prefix: Seq<char>, r: Resolution) -> Resolution {
    match r {
        Resolution::Value(v) => Resolution::Value(prefix + v),
        other => other,
    }
}

/// Whether an executable result is the given outcome.
pub open spec fn agrees(res: AppResult<String>, r: Resolution) -> bool {
    match r {
        Resolution::Value(v) => res matches Ok(s) && s@ == v,
        Resolution::Failure(e) => res matches Err(err) && err@ == e,
        Resolution::Syntax => res matches Err(err) && err@.0 == ErrorKind::Parse,
    }
}

/// The number of keys that a resolution starting from `visiting` may still enter.
pub open spec fn open_keys<R: ConfigRetriever>(r: R, visiting: Set<Seq<char>>) -> nat {
    r.defined_keys().difference(visiting).len()
}

/// Entering a held key that is not being visited leaves fewer keys open.
pub proof fn lemma_open_keys_shrink(d: Set<Seq<char>>, visiting: Set<Seq<char>>, key: Seq<char>)
    requires
        d.finite(),
        d.contains(key),
        !visiting.contains(key),
    ensures
        d.difference(visiting.insert(key)).len() < d.difference(visiting).len(),
{
    assert(d.difference(visiting.insert(key)) =~= d.difference(visiting).remove(key));
    vstd::set::axiom_set_difference_finite(d, visiting);
    vstd::set::axiom_set_remove_len(d.difference(visiting), key);
}

/// Resolution of the template stored under `key`, while the keys in `visiting`
/// are being resolved further up: a visited key is a cycle; a missing key is an
/// error; otherwise the stored text is parsed as a template and each of its
/// keys is resolved in turn and put in place of its placeholder.
pub open spec fn resolve<R: ConfigRetriever>(r: R, key: Seq<char>, visiting: Set<Seq<char>>) -> Resolution
    decreases open_keys(r, visiting), 0nat,
{
    if visiting.contains(key) {
        Resolution::Failure((ErrorKind::Configuration, recursive_key_message(key)))
    } else {
        match r.retrieved(key) {
            Err(e) => Resolution::Failure(e),
            Ok(None) => Resolution::Failure((ErrorKind::Configuration, missing_key_message(key))),
            Ok(Some(text)) => {
                if r.defined_keys().finite() && r.defined_keys().contains(key) {
                    match leon_parse(text) {
                        None => Resolution::Syntax,
                        Some(pieces) => {
                            proof {
                                lemma_open_keys_shrink(r.defined_keys(), visiting, key);
                            }
                            resolve_pieces(r, pieces, visiting.insert(key))
                        },
                    }
                } else {
                    // never reached: a retriever only yields values for keys it holds
                    Resolution::Syntax
                }
            },
        }
    }
}

/// Resolution of a sequence of template pieces, from left to right: text is
/// kept, each key is resolved; the first failure is the outcome.
pub open spec fn resolve_pieces<R: ConfigRetriever>(r: R, pieces: Seq<Piece>, visiting: Set<Seq<char>>) -> Resolution
    decreases open_keys(r, visiting), pieces.len() + 1,
{
    if pieces.len() == 0 {
        Resolution::Value(Seq::empty())
    } else {
        let head = match pieces[0] {
            Piece::Text(t) => Resolution::Value(t),
            Piece::Key(k) => resolve(r, k, visiting),
        };
        match head {
            Resolution::Value(v) => prepend(v, resolve_pieces(r, pieces.drop_first(), visiting)),
            other => other,
        }
    }
}

/// The set of keys held in a stack of visited keys.
pub open spec fn visited_set(stack: Seq<String>) -> Set<Seq<char>> {
    stack.map_values(|s: String| s@).to_set()
}

proof fn lemma_visited_push(stack: Seq<String>, s: String)
    ensures
        visited_set(stack.push(s)) == visited_set(stack).insert(s@),
{
    assert(stack.push(s).map_values(|x: String| x@) =~= stack.map_values(|x: String| x@).push(s@));
    stack.map_values(|x: String| x@).lemma_push_to_set_commute(s@);
}

/// Whether `key` is on the stack of visited keys.
fn is_visiting(stack: &Vec<String>, key: &String) -> (found: bool)
    ensures
        found == visited_set(stack@).contains(key@),
{
    let mut i: usize = 0;
    while i < stack.len()
        invariant
            i <= stack.len(),
            forall|j: int| 0 <= j < i ==> stack@[j]@ != key@,
        decreases stack.len() - i,
    {
        if stack[i] == *key {
            proof {
                assert(stack@.map_values(|x: String| x@)[i as int] == key@);
            }
            return true;
        }
        i = i + 1;
    }
    proof {
        if visited_set(stack@).contains(key@) {
            let vs = stack@.map_values(|x: String| x@);
            let j = choose|j: int| 0 <= j < vs.len() && vs[j] == key@;
            assert(stack@[j]@ == key@);
        }
    }
    false
}

/// Resolves the template stored under `key`; see [`resolve`]. On success the
/// stack of visited keys is left as it was found.
pub(crate) fn get_required_template_recur<T: ConfigRetriever>(
    retriever: &T,
    key: &str,
    visiting: &mut Vec<String>,
) -> (res: AppResult<String>)
    ensures
        agrees(res, resolve(*retriever, key@, visited_set(old(visiting)@))),
        res is Ok ==> final(visiting)@ == old(visiting)@,
        visited_set(old(visiting)@).contains(key@) ==> final(visiting)@ == old(visiting)@,
    decreases open_keys(*retriever, visited_set(old(visiting)@)), 1nat,
{
    let ghost v0 = visited_set(visiting@);
    let key_text = String::from_str(key);
    if is_visiting(visiting, &key_text) {
        let mut msg = String::from_str("Recursive configuration key found: ");
        msg.append(key);
        return Err(AppError::ConfigurationError(msg));
    }
    let template_text = match required_value(retriever, key) {
        Ok(t) => t,
        Err(e) => return Err(e),
    };
    proof {
        retriever.lemma_defined_keys();
        lemma_visited_push(visiting@, key_text);
    }
    visiting.push(key_text);
    let pieces = match parse_template(template_text.as_str()) {
        Ok(p) => p,
        Err(e) => return Err(AppError::ParseError(template_error_message(&e))),
    };
    let ghost ps = pieces_view(pieces@);
    let ghost v1 = v0.insert(key@);
    assert(resolve(*retriever, key@, v0) == resolve_pieces(*retriever, ps, v1));
    let mut out = String::new();
    let mut i: usize = 0;
    assert(ps.skip(0) =~= ps);
    assert(resolve_pieces(*retriever, ps, v1) == prepend(out@, resolve_pieces(*retriever, ps, v1))) by {
        match resolve_pieces(*retriever, ps, v1) {
            Resolution::Value(w) => { assert(out@ + w =~= w); },
            _ => {},
        }
    }
    while i < pieces.len()
        invariant
            0 <= i <= pieces.len(),
            ps == pieces_view(pieces@),
            visited_set(visiting@) == v1,
            v1 == v0.insert(key@),
            v0 == visited_set(old(visiting)@),
            visiting@ == old(visiting)@.push(key_text),
            !v0.contains(key@),
            retriever.defined_keys().finite(),
            retriever.defined_keys().contains(key@),
            resolve(*retriever, key@, v0) == resolve_pieces(*retriever, ps, v1),
            resolve_pieces(*retriever, ps, v1) == prepend(out@, resolve_pieces(*retriever, ps.skip(i as int), v1)),
        decreases pieces.len() - i,
    {
        assert(ps.skip(i as int).drop_first() =~= ps.skip(i + 1));
        assert(ps.skip(i as int)[0] == ps[i as int]);
        match &pieces[i] {
            TemplatePiece::Text(t) => {
                assert(prepend(out@, prepend(t@, resolve_pieces(*retriever, ps.skip(i + 1), v1)))
                    == prepend(out@ + t@, resolve_pieces(*retriever, ps.skip(i + 1), v1))) by {
                    match resolve_pieces(*retriever, ps.skip(i + 1), v1) {
                        Resolution::Value(w) => { assert(out@ + (t@ + w) =~= (out@ + t@) + w); },
                        _ => {},
                    }
                }
                out.append(t.as_str());
            },
            TemplatePiece::Key(k) => {
                proof {
                    lemma_open_keys_shrink(retriever.defined_keys(), v0, key@);
                    assert(open_keys(*retriever, visited_set(visiting@)) < open_keys(*retriever, v0));
                }
                let value = get_required_template_recur(retriever, k.as_str(), visiting);
                match value {
                    Ok(v) => {
                        assert(prepend(out@, prepend(v@, resolve_pieces(*retriever, ps.skip(i + 1), v1)))
                            == prepend(out@ + v@, resolve_pieces(*retriever, ps.skip(i + 1), v1))) by {
                            match resolve_pieces(*retriever, ps.skip(i + 1), v1) {
                                Resolution::Value(w) => { assert(out@ + (v@ + w) =~= (out@ + v@) + w); },
                                _ => {},
                            }
                        }
                        out.append(v.as_str());
                    },
                    Err(e) => {
                        return Err(e);
                    },
                }
            },
        }
        i = i + 1;
    }
    assert(ps.skip(pieces.len() as int) =~= Seq::<Piece>::empty());
    assert(out@ + Seq::<char>::empty() =~= out@);
    visiting.pop();
    assert(visiting@ =~= old(visiting)@);
    Ok(out)
}

/// Looks up `key` and fails where it has no value.
fn required_value<T: ConfigRetriever>(retriever: &T, key: &str) -> (res: AppResult<String>)
    ensures
        string_result_view(res) == required_of(retriever.retrieved(key@), key@),
{
    match retriever.get(key) {
        Ok(Some(s)) => Ok(s),
        Ok(None) => {
            let mut msg = String::from_str("Missing configuration key for ");
            msg.append(key);
            msg.append(".");
            Err(AppError::ConfigurationError(msg))
        },
        Err(e) => Err(e),
    }
}

} // verus!

verus! {

/// Configuration values, with the required and template forms of lookup.
pub trait ConfigService {
    /// What `get` answers for `key`.
    spec fn configured(&self, key: Seq<char>) -> Result<Option<Seq<char>>, ErrorView>;

    /// What `get_required_template` answers for `key`.
    spec fn template_outcome(&self, key: Seq<char>) -> Resolution;

    /// The value of `key`, if there is one.
    fn get(&self, key: &str) -> (res: AppResult<Option<String>>)
        ensures
            lookup_view(res) == self.configured(key@),
    ;

    /// The value of `key`; a configuration error where there is none.
    fn get_required(&self, key: &str) -> (res: AppResult<String>)
        ensures
            string_result_view(res) == required_of(self.configured(key@), key@),
    ;

    /// The value of `key` read as a template, with each `{other}` placeholder
    /// replaced by the resolved value of `other`.
    fn get_required_template(&self, key: &str) -> (res: AppResult<String>)
        ensures
            agrees(res, self.template_outcome(key@)),
    ;
}

/// A [`ConfigService`] over a [`ConfigRetriever`].
pub struct ConfigServiceRetriever<T: ConfigRetriever> {
    retriever: T,
}

impl<T: ConfigRetriever> ConfigServiceRetriever<T> {
    /// The retriever that this service reads.
    pub closed spec fn inner(&self) -> T {
        self.retriever
    }

    /// A service that reads `retriever`.
    pub fn new(retriever: T) -> (s: Self)
        ensures
            s.inner() == retriever,
    {
        Self { retriever }
    }
}

impl<T: ConfigRetriever> ConfigService for ConfigServiceRetriever<T> {
    open spec fn configured(&self, key: Seq<char>) -> Result<Option<Seq<char>>, ErrorView> {
        self.inner().retrieved(key)
    }

    open spec fn template_outcome(&self, key: Seq<char>) -> Resolution {
        resolve(self.inner(), key, Set::empty())
    }

    fn get(&self, key: &str) -> (res: AppResult<Option<String>>) {
        self.retriever.get(key)
    }

    fn get_required(&self, key: &str) -> (res: AppResult<String>) {
        required_value(&self.retriever, key)
    }

    fn get_required_template(&self, key: &str) -> (res: AppResult<String>) {
        let mut visiting: Vec<String> = Vec::new();
        assert(visited_set(visiting@) =~= Set::<Seq<char>>::empty());
        get_required_template_recur(&self.retriever, key, &mut visiting)
    }
}

/// Shares a configuration service between the parts of the application.
pub fn new_config_service_ref<C: ConfigService>(config_service: C) -> (r: std::sync::Arc<C>)
    ensures
        *r == config_service,
{
    std::sync::Arc::new(config_service)
}

} // verus!

verus! {

/// The text of pieces that are all text, joined.
pub open spec fn joined_text(pieces: Seq<Piece>) -> Seq<char>
    decreases pieces.len(),
{
    if pieces.len() == 0 {
        Seq::empty()
    } else {
        match pieces[0] {
            Piece::Text(t) => t + joined_text(pieces.drop_first()),
            Piece::Key(_) => joined_text(pieces.drop_first()),
        }
    }
}

/// Whether every piece is text.
pub open spec fn all_text(pieces: Seq<Piece>) -> bool {
    forall|i: int| 0 <= i < pieces.len() ==> pieces[i] is Text
}

proof fn lemma_resolve_all_text<R: ConfigRetriever>(r: R, pieces: Seq<Piece>, visiting: Set<Seq<char>>)
    requires
        all_text(pieces),
    ensures
        resolve_pieces(r, pieces, visiting) == Resolution::Value(joined_text(pieces)),
    decreases pieces.len(),
{
    if pieces.len() > 0 {
        assert(all_text(pieces.drop_first())) by {
            assert forall|i: int| 0 <= i < pieces.drop_first().len() implies pieces.drop_first()[i] is Text by {
                assert(pieces.drop_first()[i] == pieces[i + 1]);
            }
        }
        lemma_resolve_all_text(r, pieces.drop_first(), visiting);
        assert(pieces[0] is Text);
    }
}

impl<T: ConfigRetriever> ConfigServiceRetriever<T> {
    /// A required value agrees with the plain lookup: it is the value where
    /// there is one, the lookup's error where it fails, and a configuration
    /// error naming the key where there is no value.
    pub proof fn lemma_required_agrees_with_get(&self, key: Seq<char>)
        ensures
            self.configured(key) matches Ok(Some(v)) ==> required_of(self.configured(key), key) == Ok::<Seq<char>, ErrorView>(v),
            self.configured(key) matches Err(e) ==> required_of(self.configured(key), key) == Err::<Seq<char>, ErrorView>(e),
            self.configured(key) == Ok::<Option<Seq<char>>, ErrorView>(None) ==> required_of(self.configured(key), key)
                == Err::<Seq<char>, ErrorView>((ErrorKind::Configuration, missing_key_message(key))),
    {
    }

    /// A key without a value resolves to the missing-key error, and a key whose
    /// lookup fails resolves to that failure.
    pub proof fn lemma_template_without_value(&self, key: Seq<char>)
        ensures
            self.configured(key) == Ok::<Option<Seq<char>>, ErrorView>(None) ==> self.template_outcome(key)
                == Resolution::Failure((ErrorKind::Configuration, missing_key_message(key))),
            self.configured(key) matches Err(e) ==> self.template_outcome(key) == Resolution::Failure(e),
    {
    }

    /// A template that resolves has a value of its own: resolution never
    /// succeeds for a key that `get_required` rejects.
    pub proof fn lemma_resolved_key_has_value(&self, key: Seq<char>)
        ensures
            self.template_outcome(key) is Value ==> self.configured(key) matches Ok(Some(_)),
    {
    }

    /// A template without placeholders resolves to its own text.
    pub proof fn lemma_template_plain_text(&self, key: Seq<char>, text: Seq<char>, pieces: Seq<Piece>)
        requires
            self.configured(key) == Ok::<Option<Seq<char>>, ErrorView>(Some(text)),
            leon_parse(text) == Some(pieces),
            all_text(pieces),
        ensures
            self.template_outcome(key) == Resolution::Value(joined_text(pieces)),
    {
        self.inner().lemma_defined_keys();
        lemma_resolve_all_text(self.inner(), pieces, Set::empty().insert(key));
    }

    /// A template that consists of a placeholder for its own key fails with
    /// the recursive-key error instead of looping.
    pub proof fn lemma_template_self_reference(&self, key: Seq<char>, text: Seq<char>)
        requires
            self.configured(key) == Ok::<Option<Seq<char>>, ErrorView>(Some(text)),
            leon_parse(text) == Some(seq![Piece::Key(key)]),
        ensures
            self.template_outcome(key) == Resolution::Failure((ErrorKind::Configuration, recursive_key_message(key))),
    {
        let r = self.inner();
        r.lemma_defined_keys();
        let v1 = Set::<Seq<char>>::empty().insert(key);
        let ps = seq![Piece::Key(key)];
        assert(resolve(r, key, v1) == Resolution::Failure((ErrorKind::Configuration, recursive_key_message(key))));
        assert(ps[0] == Piece::Key(key));
        assert(resolve_pieces(r, ps, v1) == Resolution::Failure((ErrorKind::Configuration, recursive_key_message(key))));
    }

    /// Two templates that refer to each other fail with the recursive-key error
    /// for the key first asked for.
    pub proof fn lemma_template_mutual_reference(&self, a: Seq<char>, b: Seq<char>, text_a: Seq<char>, text_b: Seq<char>)
        requires
            a != b,
            self.configured(a) == Ok::<Option<Seq<char>>, ErrorView>(Some(text_a)),
            self.configured(b) == Ok::<Option<Seq<char>>, ErrorView>(Some(text_b)),
            leon_parse(text_a) == Some(seq![Piece::Key(b)]),
            leon_parse(text_b) == Some(seq![Piece::Key(a)]),
        ensures
            self.template_outcome(a) == Resolution::Failure((ErrorKind::Configuration, recursive_key_message(a))),
    {
        let r = self.inner();
        r.lemma_defined_keys();
        let va = Set::<Seq<char>>::empty().insert(a);
        let vab = va.insert(b);
        let pa = seq![Piece::Key(b)];
        let pb = seq![Piece::Key(a)];
        let fail = Resolution::Failure((ErrorKind::Configuration, recursive_key_message(a)));
        assert(vab.contains(a));
        assert(resolve(r, a, vab) == fail);
        assert(pb[0] == Piece::Key(a));
        assert(resolve_pieces(r, pb, vab) == fail);
        assert(!va.contains(b));
        assert(resolve(r, b, va) == fail);
        assert(pa[0] == Piece::Key(b));
        assert(resolve_pieces(r, pa, va) == fail);
    }
}

} // verus!

verus! {

/// Resolution that succeeds while some keys are being visited succeeds alike
/// while fewer keys are: the keys being visited only stop cycles.
proof fn lemma_resolve_fewer_visited<R: ConfigRetriever>(r: R, key: Seq<char>, v1: Set<Seq<char>>, v2: Set<Seq<char>>)
    requires
        v1.subset_of(v2),
        resolve(r, key, v2) is Value,
    ensures
        resolve(r, key, v1) == resolve(r, key, v2),
    decreases open_keys(r, v2), 0nat,
{
    assert(!v2.contains(key));
    assert(!v1.contains(key));
    match r.retrieved(key) {
        Ok(Some(text)) => {
            if r.defined_keys().finite() && r.defined_keys().contains(key) {
                match leon_parse(text) {
                    Some(pieces) => {
                        lemma_open_keys_shrink(r.defined_keys(), v2, key);
                        lemma_pieces_fewer_visited(r, pieces, v1.insert(key), v2.insert(key));
                    },
                    None => {},
                }
            }
        },
        _ => {},
    }
}

proof fn lemma_pieces_fewer_visited<R: ConfigRetriever>(r: R, pieces: Seq<Piece>, v1: Set<Seq<char>>, v2: Set<Seq<char>>)
    requires
        v1.subset_of(v2),
        resolve_pieces(r, pieces, v2) is Value,
    ensures
        resolve_pieces(r, pieces, v1) == resolve_pieces(r, pieces, v2),
    decreases open_keys(r, v2), pieces.len() + 1,
{
    if pieces.len() > 0 {
        match pieces[0] {
            Piece::Key(k) => {
                lemma_resolve_fewer_visited(r, k, v1, v2);
            },
            Piece::Text(_) => {},
        }
        lemma_pieces_fewer_visited(r, pieces.drop_first(), v1, v2);
    }
}

/// The pieces of a template with each key replaced by `value_of` that key.
pub open spec fn render(pieces: Seq<Piece>, value_of: spec_fn(Seq<char>) -> Seq<char>) -> Seq<char>
    decreases pieces.len(),
{
    if pieces.len() == 0 {
        Seq::empty()
    } else {
        match pieces[0] {
            Piece::Text(t) => t + render(pieces.drop_first(), value_of),
            Piece::Key(k) => value_of(k) + render(pieces.drop_first(), value_of),
        }
    }
}

/// The value of a resolved key, where resolution succeeds.
pub open spec fn resolved_value<R: ConfigRetriever>(r: R, key: Seq<char>) -> Seq<char> {
    match resolve(r, key, Set::empty()) {
        Resolution::Value(v) => v,
        _ => Seq::empty(),
    }
}

proof fn lemma_pieces_render<R: ConfigRetriever>(r: R, pieces: Seq<Piece>, visiting: Set<Seq<char>>)
    requires
        resolve_pieces(r, pieces, visiting) is Value,
    ensures
        forall|i: int| 0 <= i < pieces.len() && (#[trigger] pieces[i]) is Key ==>
            resolve(r, pieces[i]->Key_0, Set::empty()) is Value,
        resolve_pieces(r, pieces, visiting) == Resolution::Value(render(pieces, |k: Seq<char>| resolved_value(r, k))),
    decreases pieces.len(),
{
    if pieces.len() > 0 {
        let rest = pieces.drop_first();
        match pieces[0] {
            Piece::Key(k) => {
                lemma_resolve_fewer_visited(r, k, Set::empty(), visiting);
            },
            Piece::Text(_) => {},
        }
        lemma_pieces_render(r, rest, visiting);
        assert forall|i: int| 0 <= i < pieces.len() && (#[trigger] pieces[i]) is Key implies
            resolve(r, pieces[i]->Key_0, Set::empty()) is Value by {
            if i > 0 {
                assert(pieces[i] == rest[i - 1]);
            }
        }
    }
}

proof fn lemma_pieces_all_resolve<R: ConfigRetriever>(r: R, pieces: Seq<Piece>, visiting: Set<Seq<char>>)
    requires
        forall|i: int| 0 <= i < pieces.len() && (#[trigger] pieces[i]) is Key ==>
            resolve(r, pieces[i]->Key_0, visiting) is Value,
    ensures
        resolve_pieces(r, pieces, visiting) == Resolution::Value(render(pieces, |k: Seq<char>| resolved_value(r, k))),
    decreases pieces.len(),
{
    if pieces.len() > 0 {
        let rest = pieces.drop_first();
        assert forall|i: int| 0 <= i < rest.len() && (#[trigger] rest[i]) is Key implies
            resolve(r, rest[i]->Key_0, visiting) is Value by {
            assert(rest[i] == pieces[i + 1]);
        }
        lemma_pieces_all_resolve(r, rest, visiting);
        match pieces[0] {
            Piece::Key(k) => {
                assert(pieces[0] is Key);
                lemma_resolve_fewer_visited(r, k, Set::empty(), visiting);
            },
            Piece::Text(_) => {},
        }
    }
}

/// Whether `key` holds a template that parses and whose placeholders name
/// keys of `keys`, each of lower `rank` than `key`.
pub open spec fn refs_ranked<R: ConfigRetriever>(
    r: R,
    keys: Set<Seq<char>>,
    rank: spec_fn(Seq<char>) -> nat,
    key: Seq<char>,
) -> bool {
    match r.retrieved(key) {
        Ok(Some(text)) => match leon_parse(text) {
            Some(pieces) => forall|i: int|
                0 <= i < pieces.len() && (#[trigger] pieces[i]) is Key ==> {
                    &&& keys.contains(pieces[i]->Key_0)
                    &&& rank(pieces[i]->Key_0) < rank(key)
                },
            None => false,
        },
        _ => false,
    }
}

/// An acyclic set of templates: every key of `keys` holds a template that
/// parses, its placeholders stay within `keys`, and `rank` strictly decreases
/// along every placeholder, so no chain of placeholders comes back to a key.
pub open spec fn acyclic_templates<R: ConfigRetriever>(r: R, keys: Set<Seq<char>>, rank: spec_fn(Seq<char>) -> nat) -> bool {
    forall|k: Seq<char>| #[trigger] keys.contains(k) ==> refs_ranked(r, keys, rank, k)
}

proof fn lemma_ranked_resolves<R: ConfigRetriever>(
    r: R,
    keys: Set<Seq<char>>,
    rank: spec_fn(Seq<char>) -> nat,
    key: Seq<char>,
    visiting: Set<Seq<char>>,
)
    requires
        acyclic_templates(r, keys, rank),
        keys.contains(key),
        forall|v: Seq<char>| #[trigger] visiting.contains(v) ==> keys.contains(v) && rank(v) > rank(key),
    ensures
        resolve(r, key, visiting) is Value,
    decreases rank(key),
{
    r.lemma_defined_keys();
    assert(refs_ranked(r, keys, rank, key));
    let text = r.retrieved(key)->Ok_0->Some_0;
    let pieces = leon_parse(text)->Some_0;
    let v1 = visiting.insert(key);
    assert forall|i: int| 0 <= i < pieces.len() && (#[trigger] pieces[i]) is Key implies
        resolve(r, pieces[i]->Key_0, v1) is Value by {
        let s = pieces[i]->Key_0;
        assert(keys.contains(s) && rank(s) < rank(key));
        assert forall|v: Seq<char>| #[trigger] v1.contains(v) implies keys.contains(v) && rank(v) > rank(s) by {
            if v != key {
                assert(visiting.contains(v));
            }
        }
        lemma_ranked_resolves(r, keys, rank, s, v1);
    }
    lemma_pieces_all_resolve(r, pieces, v1);
}

impl<T: ConfigRetriever> ConfigServiceRetriever<T> {
    /// A template that resolves is its text with each placeholder replaced by
    /// the value that its own key resolves to: every key it refers to resolves
    /// on its own, to the value put in its place.
    pub proof fn lemma_template_substitution(&self, key: Seq<char>, text: Seq<char>, pieces: Seq<Piece>)
        requires
            self.configured(key) == Ok::<Option<Seq<char>>, ErrorView>(Some(text)),
            leon_parse(text) == Some(pieces),
            self.template_outcome(key) is Value,
        ensures
            forall|i: int| 0 <= i < pieces.len() && (#[trigger] pieces[i]) is Key ==>
                self.template_outcome(pieces[i]->Key_0) is Value,
            self.template_outcome(key) == Resolution::Value(
                render(pieces, |k: Seq<char>| resolved_value(self.inner(), k)),
            ),
    {
        let r = self.inner();
        r.lemma_defined_keys();
        let v1 = Set::<Seq<char>>::empty().insert(key);
        assert(self.template_outcome(key) == resolve_pieces(r, pieces, v1));
        lemma_pieces_render(r, pieces, v1);
    }

    /// Where every key that a template refers to resolves without coming back
    /// to the template's own key (no cycle through it), the template resolves
    /// to its text with each placeholder replaced by the value of its key.
    pub proof fn lemma_template_acyclic(&self, key: Seq<char>, text: Seq<char>, pieces: Seq<Piece>)
        requires
            self.configured(key) == Ok::<Option<Seq<char>>, ErrorView>(Some(text)),
            leon_parse(text) == Some(pieces),
            forall|i: int| 0 <= i < pieces.len() && (#[trigger] pieces[i]) is Key ==>
                resolve(self.inner(), pieces[i]->Key_0, Set::empty().insert(key)) is Value,
        ensures
            self.template_outcome(key) == Resolution::Value(
                render(pieces, |k: Seq<char>| resolved_value(self.inner(), k)),
            ),
    {
        let r = self.inner();
        r.lemma_defined_keys();
        let v1 = Set::<Seq<char>>::empty().insert(key);
        assert(self.template_outcome(key) == resolve_pieces(r, pieces, v1));
        lemma_pieces_all_resolve(r, pieces, v1);
    }

    /// In an acyclic set of templates whose keys all hold templates that
    /// parse, every key resolves, and each resolves to its text with every
    /// placeholder replaced by the value its own key resolves to.
    pub proof fn lemma_template_acyclic_graph(
        &self,
        keys: Set<Seq<char>>,
        rank: spec_fn(Seq<char>) -> nat,
        key: Seq<char>,
        text: Seq<char>,
        pieces: Seq<Piece>,
    )
        requires
            acyclic_templates(self.inner(), keys, rank),
            keys.contains(key),
            self.configured(key) == Ok::<Option<Seq<char>>, ErrorView>(Some(text)),
            leon_parse(text) == Some(pieces),
        ensures
            forall|k: Seq<char>| #[trigger] keys.contains(k) ==> self.template_outcome(k) is Value,
            self.template_outcome(key) == Resolution::Value(
                render(pieces, |k: Seq<char>| resolved_value(self.inner(), k)),
            ),
    {
        let r = self.inner();
        assert forall|k: Seq<char>| #[trigger] keys.contains(k) implies self.template_outcome(k) is Value by {
            lemma_ranked_resolves(r, keys, rank, k, Set::empty());
        }
        r.lemma_defined_keys();
        let v1 = Set::<Seq<char>>::empty().insert(key);
        assert(refs_ranked(r, keys, rank, key));
        assert forall|i: int| 0 <= i < pieces.len() && (#[trigger] pieces[i]) is Key implies
            resolve(r, pieces[i]->Key_0, v1) is Value by {
            let s = pieces[i]->Key_0;
            assert forall|v: Seq<char>| #[trigger] v1.contains(v) implies keys.contains(v) && rank(v) > rank(s) by {}
            lemma_ranked_resolves(r, keys, rank, s, v1);
        }
        assert(self.template_outcome(key) == resolve_pieces(r, pieces, v1));
        lemma_pieces_all_resolve(r, pieces, v1);
    }
}

} // verus!

