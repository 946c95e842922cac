use vstd::prelude::*;
use crate::text::str_eq;

verus! {

/// The commands the bot answers to.
#[derive(Clone, Copy, Debug, PartialEq, Eq, Structural)]
pub enum ExecutorCommand {
    Help,
    Run,
}

/// The table built from pairing `labels` with `values`, a later pair
/// replacing an earlier one with the same label.
pub open spec fn pairs_map<E>(labels: Seq<Seq<char>>, values: Seq<E>, n: int) -> Map<Seq<char>, E>
    decreases n,
{
    if n <= 0 {
        Map::empty()
    } else {
        pairs_map(labels, values, n - 1).insert(labels[n - 1], values[n - 1])
    }
}

/// Labels past index `i` (up to `n`) differ from `key`: their pairs leave the
/// entry of `key` as it was after the first `i` pairs.
pub proof fn lemma_pairs_map_skip<E>(labels: Seq<Seq<char>>, values: Seq<E>, i: int, n: int, key: Seq<char>)
    requires
        0 <= i <= n,
        forall|k: int| i <= k < n ==> labels[k] != key,
    ensures
        pairs_map(labels, values, n).contains_key(key) == pairs_map(labels, values, i).contains_key(key),
        pairs_map(labels, values, n).contains_key(key) ==> pairs_map(labels, values, n)[key]
            == pairs_map(labels, values, i)[key],
    decreases n - i,
{
    if n > i {
        lemma_pairs_map_skip(labels, values, i, n - 1, key);
    }
}

/// Maps command labels (without the leading slash) to values.
pub struct CommandMatcher<Enum> {
    labels: Vec<String>,
    values: Vec<Enum>,
}

impl<Enum> CommandMatcher<Enum> {
    pub closed spec fn label_seq(&self) -> Seq<Seq<char>> {
        self.labels@.map_values(|l: String| l@)
    }

    pub closed spec fn wf(&self) -> bool {
        self.labels@.len() == self.values@.len()
    }

    /// The label table.
    pub closed spec fn view(&self) -> Map<Seq<char>, Enum> {
        pairs_map(self.label_seq(), self.values@, self.labels@.len() as int)
    }
}

impl<Enum: Copy> CommandMatcher<Enum> {
    /// Pairs `labels[i]` with `enums[i]`; surplus entries of the longer slice
    /// are ignored, and a repeated label keeps its last value.
    pub fn new(labels: &[&str], enums: &[Enum]) -> (r: Self)
        ensures
            r.wf(),
            r.view() == pairs_map(
                labels@.map_values(|l: &str| l@),
                enums@,
                if labels@.len() < enums@.len() {
                    labels@.len() as int
                } else {
                    enums@.len() as int
                },
            ),
    {
        let n = if labels.len() < enums.len() {
            labels.len()
        } else {
            enums.len()
        };
        let ghost ls = labels@.map_values(|l: &str| l@);
        let mut lv: Vec<String> = Vec::new();
        let mut vv: Vec<Enum> = Vec::new();
        let mut i: usize = 0;
        while i < n
            invariant
                n <= labels@.len(),
                n <= enums@.len(),
                i <= n,
                lv@.len() == i,
                vv@.len() == i,
                ls == labels@.map_values(|l: &str| l@),
                forall|k: int| 0 <= k < i ==> #[trigger] lv@[k]@ == ls[k],
                forall|k: int| 0 <= k < i ==> #[trigger] vv@[k] == enums@[k],
            decreases n - i,
        {
            lv.push(String::from_str(labels[i]));
            vv.push(enums[i]);
            i = i + 1;
        }
        let r = CommandMatcher { labels: lv, values: vv };
        proof {
            assert(r.label_seq().subrange(0, n as int) =~= ls.subrange(0, n as int));
            assert(vv@.subrange(0, n as int) =~= enums@.subrange(0, n as int));
            lemma_pairs_map_prefix(r.label_seq(), ls, vv@, enums@, n as int);
        }
        r
    }

    /// The value of the label `text`, if any.
    pub fn find(&self, text: &str) -> (r: Option<Enum>)
        requires
            self.wf(),
        ensures
            r == (if self.view().contains_key(text@) {
                Some(self.view()[text@])
            } else {
                None
            }),
    {
        let n = self.labels.len();
        let mut i: usize = n;
        while i > 0
            invariant
                i <= n,
                n == self.labels@.len(),
                self.wf(),
                forall|k: int| i <= k < n ==> #[trigger] self.label_seq()[k] != text@,
            decreases i,
        {
            if str_eq(self.labels[i - 1].as_str(), text) {
                proof {
                    lemma_pairs_map_skip(self.label_seq(), self.values@, i as int, n as int, text@);
                }
                return Some(self.values[i - 1]);
            }
            i = i - 1;
        }
        proof {
            lemma_pairs_map_skip(self.label_seq(), self.values@, 0, n as int, text@);
        }
        None
    }
}

/// Tables built from sequences that agree on their first `n` pairs are equal.
pub proof fn lemma_pairs_map_prefix<E>(
    la: Seq<Seq<char>>,
    lb: Seq<Seq<char>>,
    va: Seq<E>,
    vb: Seq<E>,
    n: int,
)
    requires
        0 <= n <= la.len(),
        n <= lb.len(),
        n <= va.len(),
        n <= vb.len(),
        la.subrange(0, n) == lb.subrange(0, n),
        va.subrange(0, n) == vb.subrange(0, n),
    ensures
        pairs_map(la, va, n) == pairs_map(lb, vb, n),
    decreases n,
{
    if n > 0 {
        assert(la.subrange(0, n - 1) =~= la.subrange(0, n).subrange(0, n - 1));
        assert(lb.subrange(0, n - 1) =~= lb.subrange(0, n).subrange(0, n - 1));
        assert(va.subrange(0, n - 1) =~= va.subrange(0, n).subrange(0, n - 1));
        assert(vb.subrange(0, n - 1) =~= vb.subrange(0, n).subrange(0, n - 1));
        assert(la[n - 1] == la.subrange(0, n)[n - 1]);
        assert(lb[n - 1] == lb.subrange(0, n)[n - 1]);
        assert(va[n - 1] == va.subrange(0, n)[n - 1]);
        assert(vb[n - 1] == vb.subrange(0, n)[n - 1]);
        lemma_pairs_map_prefix(la, lb, va, vb, n - 1);
    }
}

/// The bot's command table: `help` and `eval`.
pub fn init_parser() -> (r: CommandMatcher<ExecutorCommand>)
    ensures
        r.wf(),
        r.view() == map!["help"@ => ExecutorCommand::Help, "eval"@ => ExecutorCommand::Run],
{
    let mut labels: Vec<&str> = Vec::new();
    labels.push("help");
    labels.push("eval");
    let mut enums: Vec<ExecutorCommand> = Vec::new();
    enums.push(ExecutorCommand::Help);
    enums.push(ExecutorCommand::Run);
    let r = CommandMatcher::new(labels.as_slice(), enums.as_slice());
    proof {
        let ls = labels@.map_values(|l: &str| l@);
        assert(ls[0] == "help"@);
        assert(ls[1] == "eval"@);
        reveal_strlit("help");
        reveal_strlit("eval");
        assert("help"@[0] != "eval"@[0]);
        assert(enums@[0] == ExecutorCommand::Help && enums@[1] == ExecutorCommand::Run);
        assert(pairs_map(ls, enums@, 0) == Map::<Seq<char>, ExecutorCommand>::empty());
        assert(pairs_map(ls, enums@, 1) == pairs_map(ls, enums@, 0).insert(ls[0], enums@[0]));
        assert(pairs_map(ls, enums@, 2) == pairs_map(ls, enums@, 1).insert(ls[1], enums@[1]));
        assert(pairs_map(ls, enums@, 2) =~= map!["help"@ => ExecutorCommand::Help, "eval"@ => ExecutorCommand::Run]);
    }
    r
}

} // verus!
