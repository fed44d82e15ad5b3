use vstd::prelude::*;

verus! {

/// Where `token` stands among `entries`, if it does: the last such place,
/// which among distinct entries is the only one.
pub open spec fn position(entries: Seq<(Seq<char>, i32)>, token: Seq<char>) -> Option<int>
    decreases entries.len(),
{
    if entries.len() == 0 {
        None
    } else if entries.last().0 == token {
        Some(entries.len() - 1)
    } else {
        position(entries.drop_last(), token)
    }
}

/// Whether no token stands twice among `entries`.
pub open spec fn distinct(entries: Seq<(Seq<char>, i32)>) -> bool {
    forall|i: int, j: int|
        0 <= i < j < entries.len() ==> (#[trigger] entries[i]).0 != (#[trigger] entries[j]).0
}

/// `entries` after `token` is given `bias`: in its old place if it had one,
/// else at the end.
pub open spec fn with_bias(entries: Seq<(Seq<char>, i32)>, token: Seq<char>, bias: i32) -> Seq<
    (Seq<char>, i32),
> {
    match position(entries, token) {
        Some(at) => entries.update(at, (token, bias)),
        None => entries.push((token, bias)),
    }
}

/// The bias of `token` among `entries`, if it has one.
pub open spec fn bias_of(entries: Seq<(Seq<char>, i32)>, token: Seq<char>) -> Option<i32> {
    match position(entries, token) {
        Some(at) => Some(entries[at].1),
        None => None,
    }
}

/// A token that is found stands where it is found; one that is not found
/// stands nowhere.
pub proof fn lemma_position(entries: Seq<(Seq<char>, i32)>, token: Seq<char>)
    ensures
        position(entries, token) matches Some(at) ==> 0 <= at < entries.len() && entries[at].0
            == token,
        position(entries, token) is None ==> forall|i: int|
            0 <= i < entries.len() ==> (#[trigger] entries[i]).0 != token,
    decreases entries.len(),
{
    if entries.len() > 0 && entries.last().0 != token {
        let rest = entries.drop_last();
        lemma_position(rest, token);
        assert forall|i: int| 0 <= i < entries.len() && position(entries, token) is None implies (
        #[trigger] entries[i]).0 != token by {
            if i < rest.len() {
                assert(rest[i] == entries[i]);
            }
        }
    }
}

/// Among distinct entries a token is found where it stands.
pub proof fn lemma_position_at(entries: Seq<(Seq<char>, i32)>, at: int)
    requires
        distinct(entries),
        0 <= at < entries.len(),
    ensures
        position(entries, entries[at].0) == Some(at),
    decreases entries.len(),
{
    if at < entries.len() - 1 {
        let rest = entries.drop_last();
        assert(entries.last() == entries[entries.len() - 1]);
        assert(rest[at] == entries[at]);
        assert(distinct(rest)) by {
            assert forall|i: int, j: int| 0 <= i < j < rest.len() implies (#[trigger] rest[i]).0
                != (#[trigger] rest[j]).0 by {
                assert(rest[i] == entries[i]);
                assert(rest[j] == entries[j]);
            }
        }
        lemma_position_at(rest, at);
    }
}

/// Giving a token a bias keeps the entries distinct, gives the token that
/// bias and leaves the bias of every other token as it was.
pub proof fn lemma_with_bias(entries: Seq<(Seq<char>, i32)>, token: Seq<char>, bias: i32)
    requires
        distinct(entries),
    ensures
        distinct(with_bias(entries, token, bias)),
        bias_of(with_bias(entries, token, bias), token) == Some(bias),
        forall|other: Seq<char>|
            other != token ==> bias_of(with_bias(entries, token, bias), other) == bias_of(
                entries,
                other,
            ),
{
    let after = with_bias(entries, token, bias);
    lemma_position(entries, token);
    match position(entries, token) {
        Some(at) => {
            assert(distinct(after)) by {
                assert forall|i: int, j: int| 0 <= i < j < after.len() implies (
                #[trigger] after[i]).0 != (#[trigger] after[j]).0 by {
                    assert(entries[i].0 != entries[j].0);
                }
            }
            lemma_position_at(after, at);
        },
        None => {
            assert(distinct(after)) by {
                assert forall|i: int, j: int| 0 <= i < j < after.len() implies (
                #[trigger] after[i]).0 != (#[trigger] after[j]).0 by {
                    if j < entries.len() {
                        assert(entries[i].0 != entries[j].0);
                    } else {
                        assert(entries[i].0 != token);
                    }
                }
            }
            lemma_position_at(after, entries.len() as int);
        },
    }
    assert forall|other: Seq<char>| other != token implies bias_of(after, other) == bias_of(
        entries,
        other,
    ) by {
        lemma_position(entries, other);
        match position(entries, other) {
            Some(at) => {
                assert(after[at] == entries[at]);
                lemma_position_at(after, at);
            },
            None => {
                assert forall|i: int| 0 <= i < after.len() implies (#[trigger] after[i]).0
                    != other by {
                    if i < entries.len() {
                        assert(entries[i].0 != other);
                    }
                }
                lemma_position(after, other);
            },
        }
    }
}

/// Biases by token: how much more or less likely each of some tokens is to
/// be made. No token stands twice; the entries keep the order in which
/// their tokens first came.
#[derive(Debug)]
pub struct LogitBias {
    entries: Vec<(String, i32)>,
}

impl DeepView for LogitBias {
    type V = Seq<(Seq<char>, i32)>;

    closed spec fn deep_view(&self) -> Seq<(Seq<char>, i32)> {
        self.entries.deep_view()
    }
}

impl View for LogitBias {
    type V = Seq<(Seq<char>, i32)>;

    open spec fn view(&self) -> Seq<(Seq<char>, i32)> {
        self.deep_view()
    }
}

impl LogitBias {
    #[verifier::type_invariant]
    spec fn well_formed(self) -> bool {
        distinct(self.entries.deep_view())
    }

    /// No biases.
    pub fn new() -> (biases: LogitBias)
        ensures
            biases@ == Seq::<(Seq<char>, i32)>::empty(),
    {
        let entries: Vec<(String, i32)> = Vec::new();
        assert(entries.deep_view() =~= Seq::<(Seq<char>, i32)>::empty());
        LogitBias { entries }
    }

    /// How many tokens have a bias.
    pub fn len(&self) -> (n: usize)
        ensures
            n == self@.len(),
    {
        self.entries.len()
    }

    /// The entry at `at`: a token and its bias.
    pub fn entry(&self, at: usize) -> (pair: (&str, i32))
        requires
            at < self@.len(),
        ensures
            pair.0@ == self@[at as int].0,
            pair.1 == self@[at as int].1,
            distinct(self@),
    {
        proof {
            use_type_invariant(self);
            assert(self.entries.deep_view()[at as int] == (
                self.entries@[at as int].0@,
                self.entries@[at as int].1,
            ));
        }
        (self.entries[at].0.as_str(), self.entries[at].1)
    }

    /// Where `token` stands, if it has a bias.
    fn find(&self, token: &str) -> (found: Option<usize>)
        ensures
            match found {
                Some(at) => position(self@, token@) == Some(at as int),
                None => position(self@, token@) is None,
            },
    {
        proof {
            use_type_invariant(self);
        }
        let wanted = String::from_str(token);
        let ghost all = self.entries.deep_view();
        let mut i: usize = 0;
        while i < self.entries.len()
            invariant
                i <= self.entries.len(),
                wanted@ == token@,
                all == self.entries.deep_view(),
                distinct(all),
                forall|j: int| 0 <= j < i ==> (#[trigger] all[j]).0 != token@,
            decreases self.entries.len() - i,
        {
            proof {
                assert(all[i as int] == (self.entries@[i as int].0@, self.entries@[i as int].1));
            }
            if self.entries[i].0 == wanted {
                proof {
                    lemma_position_at(all, i as int);
                }
                return Some(i);
            }
            i = i + 1;
        }
        proof {
            lemma_position(all, token@);
        }
        None
    }

    /// The bias of `token`, if it has one.
    pub fn get(&self, token: &str) -> (bias: Option<i32>)
        ensures
            bias == bias_of(self@, token@),
    {
        match self.find(token) {
            Some(at) => {
                proof {
                    lemma_position(self@, token@);
                    assert(self.entries.deep_view()[at as int] == (
                        self.entries@[at as int].0@,
                        self.entries@[at as int].1,
                    ));
                }
                Some(self.entries[at].1)
            },
            None => None,
        }
    }

    /// These biases with `token` given the bias `bias`: in place of the
    /// bias that it had, if it had one.
    pub fn with(self, token: String, bias: i32) -> (after: LogitBias)
        ensures
            after@ == with_bias(self@, token@, bias),
    {
        proof {
            use_type_invariant(&self);
            lemma_with_bias(self@, token@, bias);
            lemma_position(self@, token@);
        }
        let found = self.find(token.as_str());
        let ghost was = self.entries.deep_view();
        let mut entries = self.entries;
        match found {
            Some(at) => {
                entries.set(at, (token, bias));
                proof {
                    assert(entries.deep_view() =~= was.update(at as int, (token@, bias)));
                }
            },
            None => {
                entries.push((token, bias));
                proof {
                    assert(entries.deep_view() =~= was.push((token@, bias)));
                }
            },
        }
        LogitBias { entries }
    }
}

impl Clone for LogitBias {
    fn clone(&self) -> (copy: LogitBias)
        ensures
            copy@ == self@,
    {
        proof {
            use_type_invariant(self);
        }
        let mut entries: Vec<(String, i32)> = Vec::new();
        let mut i: usize = 0;
        while i < self.entries.len()
            invariant
                i <= self.entries.len(),
                entries.len() == i,
                forall|j: int|
                    0 <= j < i ==> (#[trigger] entries@[j]).0@ == self.entries@[j].0@
                        && entries@[j].1 == self.entries@[j].1,
            decreases self.entries.len() - i,
        {
            entries.push((self.entries[i].0.clone(), self.entries[i].1));
            i = i + 1;
        }
        assert(entries.deep_view() =~= self.entries.deep_view());
        LogitBias { entries }
    }
}

} // verus!
