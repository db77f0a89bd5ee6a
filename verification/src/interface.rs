//! The interface between the engine and a main program: responses,
//! errors and life-cycle events.
use vstd::prelude::*;
use crate::kvlist::{find_key, keys_distinct, kv_map, pairs_view, lemma_kv_map_dom, lemma_kv_map_push, lemma_kv_map_update, lemma_kv_map_value};

verus! {

/// The mathematical content of a [`Response`].
pub struct ResponseView {
    /// the (tag, html) replacements, in order
    pub tags: Seq<(Seq<char>, Seq<char>)>,
    /// whether the user interface should shut down
    pub shutdown_required: bool,
    /// whether the response reports an error
    pub error: bool,
    /// associated test data
    pub test_data: Map<Seq<char>, Seq<char>>,
}

/// The response from the engine to the user interface resulting from a
/// command or event.
pub struct Response {
    /// for each pair `(tag, html)`, replace the element identified by `tag`
    /// with `html`; the order of the pairs is significant
    tags: Vec<(String, String)>,
    /// tell the user interface to shut down
    shutdown_required: bool,
    /// whether the response includes an error
    error: bool,
    /// associated test data
    test_data: StringMap,
}

impl View for Response {
    type V = ResponseView;

    closed spec fn view(&self) -> ResponseView {
        ResponseView {
            tags: pairs_view(self.tags@),
            shutdown_required: self.shutdown_required,
            error: self.error,
            test_data: self.test_data@,
        }
    }
}

impl Default for Response {
    /// An empty response.
    fn default() -> (r: Self)
        ensures
            r@ == Response::new_view(),
    {
        Response::new()
    }
}

/// The tag pairs given as string slices.
pub open spec fn str_pairs_view(tags: Seq<(&str, &str)>) -> Seq<(Seq<char>, Seq<char>)> {
    tags.map_values(|p: (&str, &str)| (p.0@, p.1@))
}

/// The pairs `(tag, "")` that clear each of `errors`.
pub open spec fn clearing_pairs(errors: Seq<String>) -> Seq<(Seq<char>, Seq<char>)> {
    errors.map_values(|e: String| (e@, Seq::<char>::empty()))
}

impl Response {
    /// Create an empty response.
    pub fn new() -> (r: Self)
        ensures
            r@.tags == Seq::<(Seq<char>, Seq<char>)>::empty(),
            !r@.shutdown_required,
            !r@.error,
            r@.test_data == Map::<Seq<char>, Seq<char>>::empty(),
    {
        let r = Response { tags: Vec::new(), shutdown_required: false, error: false, test_data: StringMap::new() };
        proof {
            assert(pairs_view(r.tags@) =~= Seq::<(Seq<char>, Seq<char>)>::empty());
        }
        r
    }

    /// Tell the user interface to clear the given errors: each error tag is
    /// replaced by the empty string, and the response no longer reports an error.
    pub fn clear_errors(&mut self, errors: Vec<String>)
        ensures
            final(self)@.tags == old(self)@.tags + clearing_pairs(errors@),
            !final(self)@.error,
            final(self)@.shutdown_required == old(self)@.shutdown_required,
            final(self)@.test_data == old(self)@.test_data,
    {
        let mut i: usize = 0;
        while i < errors.len()
            invariant
                i <= errors.len(),
                pairs_view(self.tags@) == pairs_view(old(self).tags@) + clearing_pairs(errors@.subrange(0, i as int)),
                self.shutdown_required == old(self).shutdown_required,
                self.test_data == old(self).test_data,
            decreases errors.len() - i,
        {
            let tag = errors[i].clone();
            let empty = String::new();
            let ghost before = self.tags@;
            self.tags.push((tag, empty));
            proof {
                assert(self.tags@ == before.push((tag, empty)));
                assert(pairs_view(self.tags@) =~= pairs_view(before).push((errors@[i as int]@, Seq::<char>::empty())));
                assert(errors@.subrange(0, i + 1) =~= errors@.subrange(0, i as int).push(errors@[i as int]));
                assert(pairs_view(self.tags@) =~= pairs_view(old(self).tags@) + clearing_pairs(errors@.subrange(0, i + 1)));
            }
            i = i + 1;
        }
        self.error = false;
        proof {
            assert(errors@.subrange(0, errors.len() as int) =~= errors@);
        }
    }

    /// Add a tag/value pair to the end of the response.
    pub fn add_tag(&mut self, tag: &str, val: &str)
        ensures
            final(self)@.tags == old(self)@.tags.push((tag@, val@)),
            final(self)@.error == old(self)@.error,
            final(self)@.shutdown_required == old(self)@.shutdown_required,
            final(self)@.test_data == old(self)@.test_data,
    {
        self.tags.push((tag.to_owned(), val.to_owned()));
        proof {
            assert(pairs_view(self.tags@) =~= pairs_view(old(self).tags@).push((tag@, val@)));
        }
    }

    /// Add a tag/value pair and mark the response as an error.
    pub fn add_error_tag(&mut self, tag: &str, val: &str)
        ensures
            final(self)@.tags == old(self)@.tags.push((tag@, val@)),
            final(self)@.error,
            final(self)@.shutdown_required == old(self)@.shutdown_required,
            final(self)@.test_data == old(self)@.test_data,
    {
        self.add_tag(tag, val);
        self.set_error();
    }

    /// Add several tag/value pairs, in order.
    pub fn add_tags(&mut self, tags: &[(&str, &str)])
        ensures
            final(self)@.tags == old(self)@.tags + str_pairs_view(tags@),
            final(self)@.error == old(self)@.error,
            final(self)@.shutdown_required == old(self)@.shutdown_required,
            final(self)@.test_data == old(self)@.test_data,
    {
        let mut i: usize = 0;
        while i < tags.len()
            invariant
                i <= tags.len(),
                self@.tags == old(self)@.tags + str_pairs_view(tags@.subrange(0, i as int)),
                self@.error == old(self)@.error,
                self@.shutdown_required == old(self)@.shutdown_required,
                self@.test_data == old(self)@.test_data,
            decreases tags.len() - i,
        {
            let (t, v) = tags[i];
            self.add_tag(t, v);
            proof {
                assert(tags@.subrange(0, i + 1) =~= tags@.subrange(0, i as int).push(tags@[i as int]));
                assert(self@.tags =~= old(self)@.tags + str_pairs_view(tags@.subrange(0, i + 1)));
            }
            i = i + 1;
        }
        proof {
            assert(tags@.subrange(0, tags.len() as int) =~= tags@);
        }
    }

    /// Create a response holding the given tag/value pairs.
    pub fn new_with_tags(tags: &[(&str, &str)]) -> (r: Self)
        ensures
            r@.tags == str_pairs_view(tags@),
            !r@.error,
            !r@.shutdown_required,
            r@.test_data == Map::<Seq<char>, Seq<char>>::empty(),
    {
        let mut resp = Self::new();
        resp.add_tags(tags);
        proof {
            assert(resp@.tags =~= str_pairs_view(tags@));
        }
        resp
    }

    /// Create a response holding the given tag/value pairs that reports an error.
    pub fn new_error_with_tags(tags: &[(&str, &str)]) -> (r: Self)
        ensures
            r@.tags == str_pairs_view(tags@),
            r@.error,
            !r@.shutdown_required,
            r@.test_data == Map::<Seq<char>, Seq<char>>::empty(),
    {
        let mut resp = Self::new();
        resp.add_tags(tags);
        resp.set_error();
        proof {
            assert(resp@.tags =~= str_pairs_view(tags@));
        }
        resp
    }

    /// Get the tag/value pair at index `i`.
    pub fn get_tag(&self, i: usize) -> (r: (String, String))
        requires
            i < self@.tags.len(),
        ensures
            (r.0@, r.1@) == self@.tags[i as int],
    {
        let (t, v) = &self.tags[i];
        (t.clone(), v.clone())
    }

    /// A copy of all the tag/value pairs, in order.
    pub fn get_tags(&self) -> (r: Vec<(String, String)>)
        ensures
            pairs_view(r@) == self@.tags,
    {
        let mut r: Vec<(String, String)> = Vec::new();
        let mut i: usize = 0;
        while i < self.tags.len()
            invariant
                i <= self.tags.len(),
                pairs_view(r@) == pairs_view(self.tags@).subrange(0, i as int),
            decreases self.tags.len() - i,
        {
            let (t, v) = &self.tags[i];
            let ghost before = r@;
            r.push((t.clone(), v.clone()));
            proof {
                assert(pairs_view(self.tags@)[i as int] == (t@, v@));
                assert(pairs_view(r@) =~= pairs_view(before).push((t@, v@)));
                assert(pairs_view(r@) =~= pairs_view(self.tags@).subrange(0, i + 1));
            }
            i = i + 1;
        }
        proof {
            assert(pairs_view(self.tags@).subrange(0, i as int) =~= pairs_view(self.tags@));
        }
        r
    }

    /// The number of tag/value pairs.
    pub fn num_tags(&self) -> (r: usize)
        ensures
            r == self@.tags.len(),
    {
        self.tags.len()
    }

    /// Whether the user interface should shut down.
    pub fn is_shutdown_required(&self) -> (r: bool)
        ensures
            r == self@.shutdown_required,
    {
        self.shutdown_required
    }

    /// Tell the user interface to shut down.
    pub fn set_shutdown_required(&mut self)
        ensures
            final(self)@.shutdown_required,
            final(self)@.tags == old(self)@.tags,
            final(self)@.error == old(self)@.error,
            final(self)@.test_data == old(self)@.test_data,
    {
        self.shutdown_required = true;
    }

    /// Whether the response reports an error.
    pub fn is_error(&self) -> (r: bool)
        ensures
            r == self@.error,
    {
        self.error
    }

    /// Mark the response as reporting an error.
    pub fn set_error(&mut self)
        ensures
            final(self)@.error,
            final(self)@.tags == old(self)@.tags,
            final(self)@.shutdown_required == old(self)@.shutdown_required,
            final(self)@.test_data == old(self)@.test_data,
    {
        self.error = true;
    }

    /// The test data recorded under `tag`.
    pub fn get_test_data(&self, tag: &str) -> (r: String)
        requires
            self@.test_data.contains_key(tag@),
        ensures
            r@ == self@.test_data[tag@],
    {
        self.test_data.get(tag)
    }

    /// Record `val` as the test data under `key` (replacing any earlier value).
    pub fn set_test_data(&mut self, key: &str, val: &str)
        ensures
            final(self)@.test_data == old(self)@.test_data.insert(key@, val@),
            final(self)@.tags == old(self)@.tags,
            final(self)@.error == old(self)@.error,
            final(self)@.shutdown_required == old(self)@.shutdown_required,
    {
        self.test_data.set(key, val);
    }

    /// Replace all the test data (the keys of `test_data` are distinct).
    pub fn set_all_test_data(&mut self, test_data: Vec<(String, String)>)
        requires
            keys_distinct(pairs_view(test_data@)),
        ensures
            final(self)@.test_data == kv_map(pairs_view(test_data@)),
            final(self)@.tags == old(self)@.tags,
            final(self)@.error == old(self)@.error,
            final(self)@.shutdown_required == old(self)@.shutdown_required,
    {
        self.test_data = StringMap::from_pairs(test_data);
    }
}

/// A map of strings: a finite map from keys to values, held as a list of
/// pairs whose keys are distinct.
pub struct StringMap {
    pairs: Vec<(String, String)>,
}

impl View for StringMap {
    type V = Map<Seq<char>, Seq<char>>;

    closed spec fn view(&self) -> Map<Seq<char>, Seq<char>> {
        kv_map(pairs_view(self.pairs@))
    }
}

impl StringMap {
    #[verifier::type_invariant]
    closed spec fn keys_are_distinct(self) -> bool {
        keys_distinct(pairs_view(self.pairs@))
    }

    /// No test data.
    pub fn new() -> (r: Self)
        ensures
            r@ == Map::<Seq<char>, Seq<char>>::empty(),
    {
        let r = StringMap { pairs: Vec::new() };
        proof {
            assert(pairs_view(r.pairs@) =~= Seq::<(Seq<char>, Seq<char>)>::empty());
        }
        r
    }

    /// The test data given as pairs with distinct keys.
    pub fn from_pairs(pairs: Vec<(String, String)>) -> (r: Self)
        requires
            keys_distinct(pairs_view(pairs@)),
        ensures
            r@ == kv_map(pairs_view(pairs@)),
    {
        StringMap { pairs }
    }

    /// The pairs, in the order in which their keys were first set.
    pub fn to_pairs(&self) -> (r: Vec<(String, String)>)
        ensures
            kv_map(pairs_view(r@)) == self@,
            keys_distinct(pairs_view(r@)),
    {
        proof {
            use_type_invariant(self);
        }
        let mut r: Vec<(String, String)> = Vec::new();
        let mut i: usize = 0;
        while i < self.pairs.len()
            invariant
                i <= self.pairs.len(),
                pairs_view(r@) == pairs_view(self.pairs@).subrange(0, i as int),
            decreases self.pairs.len() - i,
        {
            let (k, v) = &self.pairs[i];
            let ghost before = r@;
            r.push((k.clone(), v.clone()));
            proof {
                assert(pairs_view(r@) =~= pairs_view(before).push(pairs_view(self.pairs@)[i as int]));
                assert(pairs_view(self.pairs@).subrange(0, i + 1) =~= pairs_view(self.pairs@).subrange(0, i as int).push(pairs_view(self.pairs@)[i as int]));
            }
            i = i + 1;
        }
        proof {
            assert(pairs_view(self.pairs@).subrange(0, i as int) =~= pairs_view(self.pairs@));
        }
        r
    }

    /// A copy of the map.
    pub fn copy(&self) -> (r: Self)
        ensures
            r@ == self@,
    {
        StringMap::from_pairs(self.to_pairs())
    }

    /// The value recorded under `tag`.
    pub fn get(&self, tag: &str) -> (r: String)
        requires
            self@.contains_key(tag@),
        ensures
            r@ == self@[tag@],
    {
        proof {
            use_type_invariant(self);
            lemma_kv_map_dom(pairs_view(self.pairs@), tag@);
        }
        match find_key(&self.pairs, tag) {
            Some(i) => {
                proof {
                    assert(pairs_view(self.pairs@)[i as int] == (self.pairs@[i as int].0@, self.pairs@[i as int].1@));
                    lemma_kv_map_value(pairs_view(self.pairs@), i as int);
                }
                self.pairs[i].1.clone()
            },
            None => {
                proof {
                    let j = choose|j: int| 0 <= j < pairs_view(self.pairs@).len() && pairs_view(self.pairs@)[j].0 == tag@;
                    assert(self.pairs@[j].0@ == tag@);
                }
                String::new()
            },
        }
    }

    /// The value recorded under `key`, if any.
    pub fn get_opt(&self, key: &str) -> (r: Option<String>)
        ensures
            self@.contains_key(key@) ==> (r matches Some(v) && v@ == self@[key@]),
            !self@.contains_key(key@) ==> r.is_none(),
    {
        proof {
            use_type_invariant(self);
            lemma_kv_map_dom(pairs_view(self.pairs@), key@);
        }
        match find_key(&self.pairs, key) {
            Some(i) => {
                proof {
                    assert(pairs_view(self.pairs@)[i as int] == (self.pairs@[i as int].0@, self.pairs@[i as int].1@));
                    lemma_kv_map_value(pairs_view(self.pairs@), i as int);
                }
                Some(self.pairs[i].1.clone())
            },
            None => {
                proof {
                    if self@.contains_key(key@) {
                        let j = choose|j: int| 0 <= j < pairs_view(self.pairs@).len() && pairs_view(self.pairs@)[j].0 == key@;
                        assert(self.pairs@[j].0@ == key@);
                    }
                }
                None
            },
        }
    }

    /// Record `val` under `key`, replacing any earlier value.
    pub fn set(&mut self, key: &str, val: &str)
        ensures
            final(self)@ == old(self)@.insert(key@, val@),
    {
        proof {
            use_type_invariant(&*self);
        }
        let ghost s = pairs_view(self.pairs@);
        let mut data: Vec<(String, String)> = Vec::new();
        std::mem::swap(&mut data, &mut self.pairs);
        assert(pairs_view(data@) == s);
        match find_key(&data, key) {
            Some(i) => {
                data.set(i, (key.to_owned(), val.to_owned()));
                proof {
                    lemma_kv_map_update(s, i as int, val@);
                    assert(pairs_view(data@) =~= s.update(i as int, (s[i as int].0, val@)));
                }
            },
            None => {
                data.push((key.to_owned(), val.to_owned()));
                proof {
                    lemma_kv_map_dom(s, key@);
                    if exists|j: int| 0 <= j < s.len() && s[j].0 == key@ {
                        let j = choose|j: int| 0 <= j < s.len() && s[j].0 == key@;
                        assert(data@[j].0@ == key@);
                    }
                    lemma_kv_map_push(s, key@, val@);
                    assert(pairs_view(data@) =~= s.push((key@, val@)));
                }
            },
        }
        self.pairs = data;
    }
}

/// Another error type: a message.
pub struct Error {
    msg: String,
}

impl Error {
    /// Create an error with the message `m`.
    pub fn new(m: &str) -> (r: Self)
        ensures
            r.message()@ == m@,
    {
        Self { msg: m.to_owned() }
    }

    /// The message of the error (what the error displays).
    pub closed spec fn message(&self) -> String {
        self.msg
    }

    /// The message of the error, as a string.
    pub fn to_string(&self) -> (r: String)
        ensures
            r@ == self.message()@,
    {
        self.msg.clone()
    }
}

/// A result whose error is an [`Error`].
pub type TPResult<T> = Result<T, Error>;

/// Either an error or a response, to be sent to the interface.
pub type ResponseResult = TPResult<Response>;

/// The default [`ResponseResult`]: an empty response.
pub fn default_response_result() -> (r: ResponseResult)
    ensures
        r matches Ok(resp) && resp@ == Response::new_view(),
{
    Ok(Response::new())
}

/// A response that reports the error message `msg` under the tag `error`.
pub fn error_response_result(msg: &str) -> (r: ResponseResult)
    ensures
        r matches Ok(resp) && resp@ == (ResponseView {
            tags: seq![(seq!['e', 'r', 'r', 'o', 'r'], msg@)],
            error: true,
            ..Response::new_view()
        }),
{
    let tags = [("error", msg)];
    let resp = Response::new_error_with_tags(&tags);
    proof {
        reveal_strlit("error");
        assert(tags@.len() == 1);
        assert(tags@[0] == ("error", msg));
        assert("error"@ =~= seq!['e', 'r', 'r', 'o', 'r']);
        assert(str_pairs_view(tags@) =~= seq![(seq!['e', 'r', 'r', 'o', 'r'], msg@)]);
    }
    Ok(resp)
}

impl Response {
    /// The view of an empty response.
    pub open spec fn new_view() -> ResponseView {
        ResponseView {
            tags: Seq::empty(),
            shutdown_required: false,
            error: false,
            test_data: Map::empty(),
        }
    }
}

/// Events in the life cycle of an app. Some of these only happen on mobile.
pub enum CycleEvent {
    /// open the application
    Start,
    /// pause the application; the engine should save state
    Pause,
    /// restore the application with the state saved at the most recent `Pause`
    Resume,
    /// destroy the application
    Destroy,
    /// stop the application
    Stop,
    /// stop (from the PC interface)
    StopPC,
}


/// Test data set on a response is read back under its key, and the data
/// under every other key is unchanged.
pub proof fn lemma_test_data_read_after_write(
    before: ResponseView,
    after: ResponseView,
    key: Seq<char>,
    val: Seq<char>,
    other: Seq<char>,
)
    requires
        after.test_data == before.test_data.insert(key, val),
    ensures
        after.test_data.contains_key(key),
        after.test_data[key] == val,
        other != key ==> (after.test_data.contains_key(other) == before.test_data.contains_key(other)),
        other != key && before.test_data.contains_key(other) ==> after.test_data[other] == before.test_data[other],
{
}


/// An interface between a main program and an engine (implemented by the
/// main programs around the engine's decisions).
pub trait Engine {
    /// Carry out the command `body` (in JSON format) and return a response.
    fn execute(&mut self, body: &str) -> ResponseResult;

    /// Handle a life-cycle event.
    fn handle_event(&mut self, event: &CycleEvent) -> TPResult<Response>;

    /// The initial HTML page for when the application is opened.
    fn initial_html(&self) -> TPResult<String>;

    /// A description identifying the engine, for diagnostic traces.
    fn trace_descr(&self) -> String;
}

} // verus!
