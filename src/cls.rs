use crate::agents::{parse_response, response_category};
use crate::database::{ToEval, ToEvalView};
use crate::schemas::TypeT;
use crate::text::join_lines;
use vstd::prelude::*;

verus! {

/// How many prompts go out together unless configured otherwise.
pub const DEFAULT_CHUNK_SIZE: usize = 50;

/// A failed call to an outside service: transport, authentication or quota.
#[derive(Clone, Debug)]
pub struct ServiceError {
    pub message: String,
}

/// The prompt for one record: its description and the retrieved examples,
/// one per line.
pub open spec fn prompt_text(descr: Seq<char>, samples: Seq<Seq<char>>) -> Seq<char> {
    "DESCRIPTION: "@ + descr + "\nSAMPLES:\n"@ + join_lines(samples)
}

/// The texts of a list of strings.
pub open spec fn texts(v: Seq<String>) -> Seq<Seq<char>> {
    v.map_values(|s: String| s@)
}

proof fn lemma_join_step(lines: Seq<Seq<char>>, i: int)
    requires
        0 <= i < lines.len(),
    ensures
        join_lines(lines.subrange(0, i + 1)) == if i == 0 {
            lines[0]
        } else {
            join_lines(lines.subrange(0, i)) + "\n"@ + lines[i]
        },
{
    let next = lines.subrange(0, i + 1);
    assert(next.drop_last() =~= lines.subrange(0, i));
}

/// Builds the prompt for a record from its description and the examples
/// retrieved for it.
pub fn build_prompt(descr: &String, samples: &Vec<String>) -> (r: String)
    ensures
        r@ == prompt_text(descr@, texts(samples@)),
{
    let mut out = String::from_str("DESCRIPTION: ");
    out.append(descr.as_str());
    out.append("\nSAMPLES:\n");
    let ghost head = out@;
    let ghost lines = texts(samples@);
    let mut i: usize = 0;
    while i < samples.len()
        invariant
            i <= samples@.len(),
            lines == texts(samples@),
            out@ == head + join_lines(lines.subrange(0, i as int)),
        decreases samples.len() - i,
    {
        proof {
            lemma_join_step(lines, i as int);
        }
        if i > 0 {
            out.append("\n");
        }
        out.append(samples[i].as_str());
        proof {
            assert(lines[i as int] == samples@[i as int]@);
        }
        i = i + 1;
    }
    assert(lines.subrange(0, samples@.len() as int) =~= lines);
    out
}

/// How many records the round that starts at `done` sends out.
pub open spec fn chunk_len(n: nat, chunk: nat, done: nat) -> nat {
    if n - done < chunk {
        (n - done) as nat
    } else {
        chunk
    }
}

/// The sizes of the dispatch rounds that remain once `done` of `n` records
/// have been classified.
pub open spec fn dispatch_sizes(n: nat, chunk: nat, done: nat) -> Seq<nat>
    decreases n - done,
{
    if chunk == 0 || done >= n {
        Seq::empty()
    } else {
        seq![chunk_len(n, chunk, done)] + dispatch_sizes(
            n,
            chunk,
            done + chunk_len(n, chunk, done),
        )
    }
}

proof fn lemma_rounds_from(n: nat, chunk: nat, done: nat)
    requires
        chunk > 0,
        done <= n,
    ensures
        dispatch_sizes(n, chunk, done).len() == ((n - done) + chunk - 1) as nat / chunk,
        forall|k: int|
            0 <= k < dispatch_sizes(n, chunk, done).len() ==> 0 < #[trigger] dispatch_sizes(
                n,
                chunk,
                done,
            )[k] <= chunk,
        forall|k: int|
            0 <= k < dispatch_sizes(n, chunk, done).len() - 1 ==> #[trigger] dispatch_sizes(
                n,
                chunk,
                done,
            )[k] == chunk,
    decreases n - done,
{
    let left = (n - done) as nat;
    if done >= n {
        assert((chunk - 1) as nat / chunk == 0) by (nonlinear_arith)
            requires
                chunk > 0,
        ;
    } else {
        let step = chunk_len(n, chunk, done);
        lemma_rounds_from(n, chunk, done + step);
        let rest = dispatch_sizes(n, chunk, done + step);
        let all = dispatch_sizes(n, chunk, done);
        assert(all == seq![step] + rest);
        if left < chunk {
            assert(rest.len() == 0) by {
                assert((chunk - 1) as nat / chunk == 0) by (nonlinear_arith)
                    requires
                        chunk > 0,
                ;
            }
            assert((left + chunk - 1) as nat / chunk == 1) by (nonlinear_arith)
                requires
                    chunk > 0,
                    0 < left < chunk,
            ;
        } else {
            assert((left + chunk - 1) as nat / chunk == ((left - chunk) + chunk - 1) as nat / chunk
                + 1) by (nonlinear_arith)
                requires
                    chunk > 0,
                    left >= chunk,
            ;
        }
        assert forall|k: int| 0 <= k < all.len() implies 0 < #[trigger] all[k] <= chunk by {
            if k > 0 {
                assert(all[k] == rest[k - 1]);
            }
        }
        assert forall|k: int| 0 <= k < all.len() - 1 implies #[trigger] all[k] == chunk by {
            if k > 0 {
                assert(all[k] == rest[k - 1]);
            } else {
                assert(rest.len() > 0);
            }
        }
    }
}

/// What the driver of a run is asked to do next.
pub enum Action {
    /// Retrieve `top_n` examples near `query`, the description of record `index`.
    Retrieve { index: usize, query: String, top_n: usize },
    /// Send these prompts, those of the records from `start` on, all at once,
    /// and hand back the answers in the same order.
    Dispatch { start: usize, prompts: Vec<String> },
    /// Every record has had its attempt.
    Finish,
}

/// What became of one record of a round, for the driver to persist or log.
pub enum ItemOutcome {
    /// The answer named a category: store it.
    Classified { id: String, eval: TypeT },
    /// The answer named no category: store `NoEval` and warn.
    Unresolved { id: String },
    /// The call failed: the record stays unclassified.
    Failed { id: String, error: ServiceError },
}

/// The stages of a run, by what it waits for.
pub enum Phase {
    Retrieving,
    Classifying,
    Finished,
}

/// The state of a run: the records, the prompts built so far, and how many
/// records have had their classification attempt.
pub struct RunView {
    pub targets: Seq<ToEvalView>,
    pub prompts: Seq<Seq<char>>,
    pub top_n: nat,
    pub chunk_size: nat,
    pub done: nat,
}

impl RunView {
    /// The round size is positive, prompts are built in record order, and
    /// classification starts only once every prompt is built.
    pub open spec fn wf(self) -> bool {
        &&& self.chunk_size > 0
        &&& self.prompts.len() <= self.targets.len()
        &&& self.done <= self.targets.len()
        &&& self.done > 0 ==> self.prompts.len() == self.targets.len()
    }

    /// Retrieval until every record has its prompt, then classification
    /// until every record has had its attempt.
    pub open spec fn phase(self) -> Phase {
        if self.prompts.len() < self.targets.len() {
            Phase::Retrieving
        } else if self.done < self.targets.len() {
            Phase::Classifying
        } else {
            Phase::Finished
        }
    }

    /// The sizes of the rounds still to be sent out.
    pub open spec fn rounds_left(self) -> Seq<nat> {
        dispatch_sizes(self.targets.len(), self.chunk_size, self.done)
    }

    /// Where the current round ends.
    pub open spec fn chunk_end(self) -> nat {
        self.done + chunk_len(self.targets.len(), self.chunk_size, self.done)
    }
}

/// The state in which a run over `targets` starts.
pub open spec fn initial_run(targets: Seq<ToEvalView>, top_n: nat, chunk_size: nat) -> RunView {
    RunView { targets, prompts: Seq::empty(), top_n, chunk_size, done: 0 }
}

/// A record after the answer to its prompt came back: a received answer
/// sets its category, a failed call leaves it as it was.
pub open spec fn after_answer(t: ToEvalView, answer: Result<String, ServiceError>) -> ToEvalView {
    match answer {
        Ok(raw) => ToEvalView { eval: response_category(raw@), ..t },
        Err(_) => t,
    }
}

/// The outcome reported for a record and the answer to its prompt.
pub open spec fn outcome_for(
    o: ItemOutcome,
    t: ToEvalView,
    answer: Result<String, ServiceError>,
) -> bool {
    match answer {
        Ok(raw) => if response_category(raw@) == TypeT::NoEval {
            o matches ItemOutcome::Unresolved { id } && id@ == t.id
        } else {
            o matches ItemOutcome::Classified { id, eval } && id@ == t.id && eval
                == response_category(raw@)
        },
        Err(e) => o matches ItemOutcome::Failed { id, error } && id@ == t.id && error.message@
            == e.message@,
    }
}

/// A run of the classification of a batch of records. It retrieves examples
/// for each record in turn, then sends the prompts out in rounds of at most
/// `chunk_size`, one round after the other, and reads each answer back into
/// the record it was made for.
pub struct BatchRun {
    targets: Vec<ToEval>,
    prompts: Vec<String>,
    top_n: usize,
    chunk_size: usize,
    done: usize,
}

impl View for BatchRun {
    type V = RunView;

    closed spec fn view(&self) -> RunView {
        RunView {
            targets: self.targets@.map_values(|t: ToEval| t@),
            prompts: texts(self.prompts@),
            top_n: self.top_n as nat,
            chunk_size: self.chunk_size as nat,
            done: self.done as nat,
        }
    }
}

impl BatchRun {
    /// The run's state is well formed.
    pub open spec fn wf(&self) -> bool {
        self@.wf()
    }

    /// A run over the records that the store selected as unclassified.
    pub fn new(targets: Vec<ToEval>, top_n: usize, chunk_size: usize) -> (r: BatchRun)
        requires
            chunk_size > 0,
        ensures
            r.wf(),
            r@ == initial_run(targets@.map_values(|t: ToEval| t@), top_n as nat, chunk_size as nat),
    {
        let r = BatchRun { targets, prompts: Vec::new(), top_n, chunk_size, done: 0 };
        assert(r@.prompts =~= Seq::<Seq<char>>::empty());
        r
    }

    /// What the run needs next.
    pub fn next_action(&self) -> (a: Action)
        requires
            self.wf(),
        ensures
            match self@.phase() {
                Phase::Retrieving => a matches Action::Retrieve { index, query, top_n } && index
                    == self@.prompts.len() && query@ == self@.targets[index as int].descr && top_n
                    == self@.top_n,
                Phase::Classifying => a matches Action::Dispatch { start, prompts } && start
                    == self@.done && texts(prompts@) == self@.prompts.subrange(
                    self@.done as int,
                    self@.chunk_end() as int,
                ) && prompts@.len() == self@.rounds_left()[0],
                Phase::Finished => a is Finish,
            },
    {
        let n = self.targets.len();
        if self.prompts.len() < n {
            let index = self.prompts.len();
            let query = self.targets[index].descr.clone();
            return Action::Retrieve { index, query, top_n: self.top_n };
        }
        if self.done < n {
            let end = if n - self.done < self.chunk_size {
                n
            } else {
                self.done + self.chunk_size
            };
            let mut prompts: Vec<String> = Vec::new();
            let mut i: usize = self.done;
            while i < end
                invariant
                    self.wf(),
                    self.prompts@.len() == n,
                    self.done <= i <= end <= n,
                    end == self@.chunk_end(),
                    texts(prompts@) == self@.prompts.subrange(self.done as int, i as int),
                decreases end - i,
            {
                let p = self.prompts[i].clone();
                assert(p@ == self@.prompts[i as int]);
                let ghost before = prompts@;
                prompts.push(p);
                proof {
                    assert(texts(prompts@) =~= texts(before).push(p@));
                    assert(texts(prompts@) =~= self@.prompts.subrange(self.done as int, i + 1));
                }
                i = i + 1;
            }
            return Action::Dispatch { start: self.done, prompts };
        }
        Action::Finish
    }

    /// Takes in the examples retrieved for the next record and builds its
    /// prompt. A failed retrieval ends the run: it is handed back and the
    /// state is left as it was.
    pub fn on_retrieved(&mut self, found: Result<Vec<String>, ServiceError>) -> (r: Result<
        (),
        ServiceError,
    >)
        requires
            old(self).wf(),
            old(self)@.phase() is Retrieving,
        ensures
            final(self).wf(),
            match found {
                Ok(samples) => r is Ok && final(self)@ == (RunView {
                    prompts: old(self)@.prompts.push(
                        prompt_text(
                            old(self)@.targets[old(self)@.prompts.len() as int].descr,
                            texts(samples@),
                        ),
                    ),
                    ..old(self)@
                }),
                Err(e) => r == Err::<(), ServiceError>(e) && final(self)@ == old(self)@,
            },
    {
        match found {
            Ok(samples) => {
                let index = self.prompts.len();
                let prompt = build_prompt(&self.targets[index].descr, &samples);
                self.prompts.push(prompt);
                proof {
                    assert(self@.prompts =~= old(self)@.prompts.push(
                        prompt_text(old(self)@.targets[index as int].descr, texts(samples@)),
                    ));
                }
                Ok(())
            },
            Err(e) => Err(e),
        }
    }

    /// Takes in the answers to the current round, in the order of its
    /// prompts: each received answer is read into its record's category, a
    /// failed call leaves its record unclassified, and the run moves to the
    /// next round.
    pub fn on_classified(&mut self, answers: Vec<Result<String, ServiceError>>) -> (outcomes: Vec<
        ItemOutcome,
    >)
        requires
            old(self).wf(),
            old(self)@.phase() is Classifying,
            answers@.len() == old(self)@.chunk_end() - old(self)@.done,
        ensures
            final(self).wf(),
            final(self)@.done == old(self)@.chunk_end(),
            old(self)@.rounds_left() == seq![answers@.len() as nat] + final(self)@.rounds_left(),
            final(self)@.prompts == old(self)@.prompts,
            final(self)@.top_n == old(self)@.top_n,
            final(self)@.chunk_size == old(self)@.chunk_size,
            final(self)@.targets.len() == old(self)@.targets.len(),
            forall|i: int|
                0 <= i < old(self)@.targets.len() && !(old(self)@.done <= i
                    < old(self)@.chunk_end()) ==> #[trigger] final(self)@.targets[i] == old(
                    self,
                )@.targets[i],
            forall|j: int|
                0 <= j < answers@.len() ==> #[trigger] final(self)@.targets[old(self)@.done + j]
                    == after_answer(old(self)@.targets[old(self)@.done + j], answers@[j]),
            outcomes@.len() == answers@.len(),
            forall|j: int|
                0 <= j < answers@.len() ==> outcome_for(
                    #[trigger] outcomes@[j],
                    old(self)@.targets[old(self)@.done + j],
                    answers@[j],
                ),
    {
        let ghost start = self.done as int;
        let n = self.targets.len();
        let mut outcomes: Vec<ItemOutcome> = Vec::new();
        let mut j: usize = 0;
        while j < answers.len()
            invariant
                self.wf(),
                self.done == old(self).done,
                self.prompts@ == old(self).prompts@,
                self.top_n == old(self).top_n,
                self.chunk_size == old(self).chunk_size,
                self.targets@.len() == old(self).targets@.len(),
                start == self.done,
                start + answers@.len() == old(self)@.chunk_end(),
                n == self.targets@.len(),
                self.done + answers@.len() <= n,
                j <= answers@.len(),
                outcomes@.len() == j,
                forall|i: int|
                    0 <= i < self.targets@.len() && !(start <= i < start + j) ==> #[trigger] self@.targets[i]
                        == old(self)@.targets[i],
                forall|k: int|
                    0 <= k < j ==> #[trigger] self@.targets[start + k] == after_answer(
                        old(self)@.targets[start + k],
                        answers@[k],
                    ),
                forall|k: int|
                    0 <= k < j ==> outcome_for(
                        #[trigger] outcomes@[k],
                        old(self)@.targets[start + k],
                        answers@[k],
                    ),
            decreases answers.len() - j,
        {
            let k = self.done + j;
            let id = self.targets[k].id.clone();
            assert(self@.targets[k as int] == old(self)@.targets[start + j]);
            match &answers[j] {
                Ok(raw) => {
                    let eval = parse_response(raw);
                    let t = ToEval {
                        id: self.targets[k].id.clone(),
                        descr: self.targets[k].descr.clone(),
                        eval,
                    };
                    let ghost before = self@.targets;
                    let ghost t_view = t@;
                    self.targets.set(k, t);
                    assert(self@.targets =~= before.update(k as int, t_view));
                    if eval == TypeT::NoEval {
                        outcomes.push(ItemOutcome::Unresolved { id });
                    } else {
                        outcomes.push(ItemOutcome::Classified { id, eval });
                    }
                },
                Err(e) => {
                    let error = ServiceError { message: e.message.clone() };
                    outcomes.push(ItemOutcome::Failed { id, error });
                },
            }
            j = j + 1;
        }
        self.done = self.done + answers.len();
        outcomes
    }

    /// The records of the run, each with the category it ended with.
    pub fn into_targets(self) -> (r: Vec<ToEval>)
        ensures
            r@.map_values(|t: ToEval| t@) == self@.targets,
    {
        self.targets
    }
}

/// A run over `n` records in rounds of at most `chunk_size` sends them out
/// in `ceil(n / chunk_size)` rounds; no round is empty or larger than
/// `chunk_size`, and every round but the last is full.
pub proof fn lemma_dispatch_rounds(targets: Seq<ToEvalView>, top_n: nat, chunk_size: nat)
    requires
        chunk_size > 0,
    ensures
        ({
            let rounds = initial_run(targets, top_n, chunk_size).rounds_left();
            &&& rounds.len() == (targets.len() + chunk_size - 1) as nat / chunk_size
            &&& forall|k: int| 0 <= k < rounds.len() ==> 0 < #[trigger] rounds[k] <= chunk_size
            &&& forall|k: int| 0 <= k < rounds.len() - 1 ==> #[trigger] rounds[k] == chunk_size
        }),
{
    lemma_rounds_from(targets.len(), chunk_size, 0);
}

/// A run over an empty selection, as where every stored record is already
/// classified, is finished from the start and sends nothing out.
pub proof fn lemma_nothing_pending(top_n: nat, chunk_size: nat)
    requires
        chunk_size > 0,
    ensures
        initial_run(Seq::empty(), top_n, chunk_size).phase() is Finished,
        dispatch_sizes(0, chunk_size, 0).len() == 0,
{
}

} // verus!
