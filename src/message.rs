use vstd::prelude::*;
use crate::level::Level;

verus! {

/// Whether some attribute of `args` has the key `k`.
pub open spec fn has_key(args: Seq<(String, String)>, k: Seq<char>) -> bool {
    exists|i: int| 0 <= i < args.len() && #[trigger] args[i].0@ == k
}

/// No two attributes of `args` share a key.
pub open spec fn keys_unique(args: Seq<(String, String)>) -> bool {
    forall|i: int, j: int|
        0 <= i < args.len() && 0 <= j < args.len() && #[trigger] args[i].0@ == #[trigger] args[j].0@
            ==> i == j
}

/// The attributes as a map from key to value; with unique keys each key
/// has exactly one value.
pub open spec fn args_map(args: Seq<(String, String)>) -> Map<Seq<char>, Seq<char>> {
    Map::new(
        |k: Seq<char>| has_key(args, k),
        |k: Seq<char>| args[choose|i: int| 0 <= i < args.len() && #[trigger] args[i].0@ == k].1@,
    )
}

/// What a message is: its level, its text and its attributes.
pub struct MessageView {
    pub level: Level,
    pub text: Seq<char>,
    pub args: Map<Seq<char>, Seq<char>>,
}

/// A message with a level, a text and extra string attributes.
#[derive(Debug, Clone)]
pub struct Message {
    /// Message level.
    pub level: Level,
    /// The message itself.
    pub message: String,
    /// Extra attributes, as key/value pairs with distinct keys.
    pub extra_args: Vec<(String, String)>,
}

impl View for Message {
    type V = MessageView;

    open spec fn view(&self) -> MessageView {
        MessageView { level: self.level, text: self.message@, args: args_map(self.extra_args@) }
    }
}

impl Message {
    /// The attributes hold no key twice.
    pub open spec fn wf(&self) -> bool {
        keys_unique(self.extra_args@)
    }

    /// A message without attributes.
    pub fn new(level: Level, message: String) -> (r: Message)
        ensures
            r.wf(),
            r.level == level,
            r.message@ == message@,
            r.extra_args@.len() == 0,
            r@ == (MessageView { level, text: message@, args: Map::empty() }),
    {
        let r = Message { level, message, extra_args: Vec::new() };
        proof {
            assert(r@.args =~= Map::<Seq<char>, Seq<char>>::empty());
        }
        r
    }

    /// The text of the message.
    pub fn text(&self) -> (r: &str)
        ensures
            r@ == self.message@,
    {
        self.message.as_str()
    }

    /// Sets the attribute `name` to `value`, replacing an earlier value of
    /// the same key.
    pub fn add_arg(self, name: String, value: String) -> (r: Message)
        requires
            self.wf(),
        ensures
            r.wf(),
            r.level == self.level,
            r.message@ == self.message@,
            r@.args == self@.args.insert(name@, value@),
    {
        let Message { level, message, extra_args } = self;
        let mut args = extra_args;
        let ghost old_args = args@;
        let ghost k = name@;
        let ghost v = value@;
        match find_arg(&args, &name) {
            Some(i) => {
                args.set(i, (name, value));
                proof {
                    lemma_replace_value(old_args, args@, i as int, k, v);
                }
            },
            None => {
                args.push((name, value));
                proof {
                    lemma_append_key(old_args, args@, k, v);
                }
            },
        }
        Message { level, message, extra_args: args }
    }
}

/// Index of the attribute with key `name`, if there is one.
fn find_arg(args: &Vec<(String, String)>, name: &String) -> (r: Option<usize>)
    ensures
        match r {
            Some(i) => i < args@.len() && args@[i as int].0@ == name@,
            None => !has_key(args@, name@),
        },
{
    let n: usize = args.len();
    let mut i: usize = 0;
    while i < n
        invariant
            n == args@.len(),
            0 <= i <= n,
            forall|j: int| 0 <= j < i ==> #[trigger] args@[j].0@ != name@,
        decreases n - i,
    {
        if args[i].0 == *name {
            return Some(i);
        }
        i = i + 1;
    }
    None
}

proof fn lemma_replace_value(
    a: Seq<(String, String)>,
    s: Seq<(String, String)>,
    i: int,
    k: Seq<char>,
    v: Seq<char>,
)
    requires
        keys_unique(a),
        0 <= i < a.len(),
        a[i].0@ == k,
        s.len() == a.len(),
        s[i].0@ == k,
        s[i].1@ == v,
        forall|j: int| 0 <= j < a.len() && j != i ==> s[j] == a[j],
    ensures
        keys_unique(s),
        args_map(s) == args_map(a).insert(k, v),
{
    assert forall|j: int| 0 <= j < s.len() implies #[trigger] s[j].0@ == a[j].0@ by {
        if j != i {
            assert(s[j] == a[j]);
        }
    }
    assert forall|x: int, y: int|
        0 <= x < s.len() && 0 <= y < s.len() && #[trigger] s[x].0@ == #[trigger] s[y].0@
            implies x == y by {
        assert(a[x].0@ == s[x].0@);
        assert(a[y].0@ == s[y].0@);
    }
    assert forall|q: Seq<char>| has_key(s, q) == has_key(a, q) by {
        if has_key(s, q) {
            let j = choose|j: int| 0 <= j < s.len() && #[trigger] s[j].0@ == q;
            assert(a[j].0@ == s[j].0@);
        }
        if has_key(a, q) {
            let j = choose|j: int| 0 <= j < a.len() && #[trigger] a[j].0@ == q;
            assert(s[j].0@ == a[j].0@);
        }
    }
    assert(has_key(a, k));
    assert forall|q: Seq<char>| #[trigger] args_map(s).contains_key(q) implies args_map(s)[q]
        == args_map(a).insert(k, v)[q] by {
        let j = choose|j: int| 0 <= j < s.len() && #[trigger] s[j].0@ == q;
        assert(s[j].0@ == q);
        if q == k {
            assert(s[i].0@ == q);
        } else {
            let j2 = choose|j2: int| 0 <= j2 < a.len() && #[trigger] a[j2].0@ == q;
            assert(s[j2].0@ == a[j2].0@);
            assert(j2 != i);
            assert(s[j2] == a[j2]);
        }
    }
    assert(args_map(s) =~= args_map(a).insert(k, v));
}

proof fn lemma_append_key(a: Seq<(String, String)>, s: Seq<(String, String)>, k: Seq<char>, v: Seq<char>)
    requires
        keys_unique(a),
        !has_key(a, k),
        s.len() == a.len() + 1,
        s[a.len() as int].0@ == k,
        s[a.len() as int].1@ == v,
        forall|j: int| 0 <= j < a.len() ==> s[j] == a[j],
    ensures
        keys_unique(s),
        args_map(s) == args_map(a).insert(k, v),
{
    let n: int = a.len() as int;
    assert forall|j: int| 0 <= j < n implies #[trigger] s[j].0@ == a[j].0@ by {
        assert(s[j] == a[j]);
    }
    assert forall|x: int, y: int|
        0 <= x < s.len() && 0 <= y < s.len() && #[trigger] s[x].0@ == #[trigger] s[y].0@
            implies x == y by {
        if x < n && y < n {
            assert(a[x].0@ == a[y].0@);
        } else if x < n {
            assert(a[x].0@ == k);
        } else if y < n {
            assert(a[y].0@ == k);
        }
    }
    assert forall|q: Seq<char>| has_key(s, q) == (has_key(a, q) || q == k) by {
        if has_key(s, q) {
            let j = choose|j: int| 0 <= j < s.len() && #[trigger] s[j].0@ == q;
            if j < n {
                assert(a[j].0@ == q);
            }
        }
        if has_key(a, q) {
            let j = choose|j: int| 0 <= j < a.len() && #[trigger] a[j].0@ == q;
            assert(s[j].0@ == a[j].0@);
        }
        if q == k {
            assert(s[n].0@ == q);
        }
    }
    assert forall|q: Seq<char>| #[trigger] args_map(s).contains_key(q) implies args_map(s)[q]
        == args_map(a).insert(k, v)[q] by {
        let j = choose|j: int| 0 <= j < s.len() && #[trigger] s[j].0@ == q;
        assert(s[j].0@ == q);
        if q == k {
            assert(s[n].0@ == q);
        } else {
            let j2 = choose|j2: int| 0 <= j2 < a.len() && #[trigger] a[j2].0@ == q;
            assert(s[j2].0@ == a[j2].0@);
            assert(s[j2] == a[j2]);
        }
    }
    assert(args_map(s) =~= args_map(a).insert(k, v));
}

} // verus!
