//! The ingestion pipeline: source configuration, the batching loop, and the
//! run summary it reports.
//!
//! A [`FillLogArg`] names the file, the batch size, and the caller's per-line
//! parser.  The loop walks the lines in file order, applies the parser to
//! each, skips and counts rejected lines, and groups the accepted records
//! into batches of exactly `batch_size` records, with one final shorter
//! batch for whatever remains.  [`Ingestor`] is the loop's state, advanced one
//! line at a time, so a caller may also stream lines through it without
//! holding the whole file.

use vstd::prelude::*;

use crate::batching::chunk;
use crate::batching::lemma_chunk_complete;
use crate::batching::lemma_successes_len;
use crate::batching::lemma_successes_push_none;
use crate::batching::lemma_successes_push_some;
use crate::batching::successes;

verus! {

/// Rejected configuration: the mechanism cannot make progress on a batch
/// size of zero, so it is refused when the source is described.
#[derive(Debug, Clone, Copy, PartialEq, Eq)]
pub enum ConfigError {
    ZeroBatchSize,
}

/// A line the caller's parser rejected.  The loop never reads more of it
/// than the fact of the rejection: the line is skipped and counted.
#[derive(Debug, Clone, Copy, PartialEq, Eq)]
pub struct ParseError;

/// A failure that ends a run before any line is read.
#[derive(Debug, Clone, Copy, PartialEq, Eq)]
pub enum IngestError {
    /// The source file could not be opened; the run dispatched nothing.
    SourceUnavailable,
}

/// What one ingestion run reports when it returns: how many lines were
/// read, how many records the parser produced, how many lines it rejected,
/// and whether the run failed outright before reading anything.
///
/// There is no dispatch-failure count: once a batch is handed over, the
/// engine's submission interface reports nothing back about it, so the run
/// has nothing it could count.
#[derive(Debug, Clone, Copy, PartialEq, Eq)]
pub struct RunSummary {
    pub lines_read: usize,
    pub records_ok: usize,
    pub parse_failures: usize,
    pub failure: Option<IngestError>,
}

/// Immutable description of one line-oriented source: where the file is,
/// how many records travel in one batch, and how one line becomes one
/// record.  Built once at assembly time; read-only during the run.
pub struct FillLogArg<F> {
    /// Path of the log file to ingest.  Not validated here: a bad path
    /// surfaces as [`IngestError::SourceUnavailable`] when the run opens it.
    pub filepath: String,
    /// Number of records in every dispatched batch except possibly the
    /// final one.  Always at least 1.
    pub batch_size: usize,
    /// The caller's parser from one line of text to one typed record.
    pub parser: F,
}

impl<F> FillLogArg<F> {
    /// Describes a source.  A batch size of zero is a misconfiguration —
    /// the loop could never complete a batch — and is refused here, so
    /// that assembly fails fast rather than the run.
    pub fn new(filepath: &str, batch_size: usize, parser: F) -> (r: Result<
        FillLogArg<F>,
        ConfigError,
    >)
        ensures
            batch_size == 0 <==> r is Err,
            r is Err ==> r == Err::<FillLogArg<F>, ConfigError>(ConfigError::ZeroBatchSize),
            r matches Ok(c) ==> c.filepath@ == filepath@ && c.batch_size == batch_size && c.parser
                == parser,
    {
        if batch_size == 0 {
            Err(ConfigError::ZeroBatchSize)
        } else {
            Ok(FillLogArg { filepath: filepath.to_owned(), batch_size, parser })
        }
    }
}

/// The outcome one parse result contributes to the run's model: the record
/// for an accepted line, nothing for a rejected one.
pub open spec fn result_outcome<T>(r: Result<T, ParseError>) -> Option<T> {
    match r {
        Ok(t) => Some(t),
        Err(_) => None,
    }
}

/// `outcome` abstracts one possible return of `parser` on `line`.
pub open spec fn outcome_valid<T, F: Fn(String) -> Result<T, ParseError>>(
    parser: F,
    line: String,
    outcome: Option<T>,
) -> bool {
    exists|r: Result<T, ParseError>|
        #[trigger] call_ensures(parser, (line,), r) && outcome == result_outcome(r)
}

/// `outcomes` abstracts one possible run of `parser` over `lines`, line by
/// line and in order.
pub open spec fn outcomes_valid<T, F: Fn(String) -> Result<T, ParseError>>(
    parser: F,
    lines: Seq<String>,
    outcomes: Seq<Option<T>>,
) -> bool {
    &&& outcomes.len() == lines.len()
    &&& forall|i: int|
        0 <= i < lines.len() ==> outcome_valid(parser, lines[i], #[trigger] outcomes[i])
}

/// The views of a sequence of batches.
pub open spec fn batch_views<T>(batches: Seq<Vec<T>>) -> Seq<Seq<T>> {
    batches.map_values(|batch: Vec<T>| batch@)
}

/// The ingestion loop's state between two lines: the batch being filled,
/// the running counters, and (as ghost history) the batches already handed
/// out and the parse outcomes observed so far.
pub struct Ingestor<T> {
    /// Number of records at which the open batch is complete.
    pub batch_size: usize,
    /// Records accepted since the last completed batch, in line order.
    pub batch: Vec<T>,
    /// Lines fed in so far.
    pub lines_read: usize,
    /// Lines the parser accepted so far.
    pub records_ok: usize,
    /// Lines the parser rejected so far; each was skipped, none ended the run.
    pub parse_failures: usize,
    /// History of the batches completed so far, in dispatch order.
    pub emitted: Ghost<Seq<Seq<T>>>,
    /// History of the per-line parse outcomes, in line order.
    pub outcomes: Ghost<Seq<Option<T>>>,
}

impl<T> Ingestor<T> {
    /// The loop's invariant: the open batch is strictly shorter than the
    /// batch size, every completed batch is exactly full, the completed
    /// batches followed by the open batch are precisely the accepted
    /// records in line order, and the counters agree with the history.
    pub open spec fn inv(&self) -> bool {
        &&& self.batch_size >= 1
        &&& self.batch@.len() < self.batch_size
        &&& forall|i: int|
            0 <= i < self.emitted@.len() ==> (#[trigger] self.emitted@[i]).len()
                == self.batch_size
        &&& successes(self.outcomes@) == self.emitted@.flatten() + self.batch@
        &&& self.lines_read == self.outcomes@.len()
        &&& self.records_ok == successes(self.outcomes@).len()
        &&& self.parse_failures == self.lines_read - self.records_ok
    }

    /// An empty accumulator for a fresh run.  Refuses a batch size of zero,
    /// as [`FillLogArg::new`] does.
    pub fn new(batch_size: usize) -> (r: Result<Ingestor<T>, ConfigError>)
        ensures
            batch_size == 0 <==> r is Err,
            r is Err ==> r == Err::<Ingestor<T>, ConfigError>(ConfigError::ZeroBatchSize),
            r matches Ok(ing) ==> {
                &&& ing.inv()
                &&& ing.batch_size == batch_size
                &&& ing.batch@ == Seq::<T>::empty()
                &&& ing.lines_read == 0
                &&& ing.records_ok == 0
                &&& ing.parse_failures == 0
                &&& ing.emitted@ == Seq::<Seq<T>>::empty()
                &&& ing.outcomes@ == Seq::<Option<T>>::empty()
            },
    {
        if batch_size == 0 {
            Err(ConfigError::ZeroBatchSize)
        } else {
            proof {
                assert(Seq::<Seq<T>>::empty().flatten() =~= Seq::<T>::empty());
                assert(successes(Seq::<Option<T>>::empty()) + Seq::<T>::empty() =~= successes(
                    Seq::<Option<T>>::empty(),
                ));
            }
            Ok(
                Ingestor {
                    batch_size,
                    batch: Vec::new(),
                    lines_read: 0,
                    records_ok: 0,
                    parse_failures: 0,
                    emitted: Ghost(Seq::empty()),
                    outcomes: Ghost(Seq::empty()),
                },
            )
        }
    }

    /// Feeds the parse result of the next line.  An accepted record joins
    /// the open batch; the batch is returned for dispatch the moment it
    /// reaches `batch_size` records.  A rejected line changes nothing but
    /// the counters: the run continues.
    pub fn accept(&mut self, parsed: Result<T, ParseError>) -> (dispatched: Option<Vec<T>>)
        requires
            old(self).inv(),
            old(self).lines_read < usize::MAX,
        ensures
            final(self).inv(),
            final(self).batch_size == old(self).batch_size,
            final(self).lines_read == old(self).lines_read + 1,
            final(self).outcomes@ == old(self).outcomes@.push(result_outcome(parsed)),
            match parsed {
                Ok(t) => {
                    &&& final(self).records_ok == old(self).records_ok + 1
                    &&& final(self).parse_failures == old(self).parse_failures
                    &&& if old(self).batch@.len() + 1 == old(self).batch_size {
                        &&& (match dispatched {
                            Some(full) => full@ == old(self).batch@.push(t),
                            None => false,
                        })
                        &&& final(self).batch@ == Seq::<T>::empty()
                        &&& final(self).emitted@ == old(self).emitted@.push(
                            old(self).batch@.push(t),
                        )
                    } else {
                        &&& dispatched is None
                        &&& final(self).batch@ == old(self).batch@.push(t)
                        &&& final(self).emitted@ == old(self).emitted@
                    }
                },
                Err(_) => {
                    &&& final(self).records_ok == old(self).records_ok
                    &&& final(self).parse_failures == old(self).parse_failures + 1
                    &&& dispatched is None
                    &&& final(self).batch@ == old(self).batch@
                    &&& final(self).emitted@ == old(self).emitted@
                },
            },
    {
        self.lines_read = self.lines_read + 1;
        match parsed {
            Ok(t) => {
                proof {
                    lemma_successes_len(self.outcomes@);
                    lemma_successes_push_some(self.outcomes@, t);
                }
                self.records_ok = self.records_ok + 1;
                self.outcomes = Ghost(self.outcomes@.push(Some(t)));
                self.batch.push(t);
                if self.batch.len() == self.batch_size {
                    let mut full: Vec<T> = Vec::new();
                    core::mem::swap(&mut full, &mut self.batch);
                    proof {
                        self.emitted@.lemma_flatten_push(full@);
                    }
                    self.emitted = Ghost(self.emitted@.push(full@));
                    proof {
                        assert(successes(self.outcomes@) =~= self.emitted@.flatten()
                            + self.batch@);
                    }
                    Some(full)
                } else {
                    proof {
                        assert(successes(self.outcomes@) =~= self.emitted@.flatten()
                            + self.batch@);
                    }
                    None
                }
            },
            Err(_) => {
                proof {
                    lemma_successes_push_none(self.outcomes@);
                }
                self.parse_failures = self.parse_failures + 1;
                self.outcomes = Ghost(self.outcomes@.push(None));
                None
            },
        }
    }

    /// Ends the run: returns the final partial batch for dispatch, or
    /// nothing if the open batch is empty — a zero-length batch is never
    /// dispatched.  Afterwards the history of completed batches is exactly
    /// the model's batching of the accepted records.
    pub fn finish(&mut self) -> (last: Option<Vec<T>>)
        requires
            old(self).inv(),
        ensures
            final(self).batch_size == old(self).batch_size,
            final(self).lines_read == old(self).lines_read,
            final(self).records_ok == old(self).records_ok,
            final(self).parse_failures == old(self).parse_failures,
            final(self).outcomes@ == old(self).outcomes@,
            final(self).batch@ == Seq::<T>::empty(),
            if old(self).batch@.len() == 0 {
                last is None && final(self).emitted@ == old(self).emitted@
            } else {
                (match last {
                    Some(l) => l@ == old(self).batch@,
                    None => false,
                }) && final(self).emitted@ == old(self).emitted@.push(old(self).batch@)
            },
            final(self).emitted@ == chunk(
                successes(old(self).outcomes@),
                old(self).batch_size as nat,
            ),
    {
        proof {
            lemma_chunk_complete(self.emitted@, self.batch@, self.batch_size as nat);
        }
        if self.batch.len() == 0 {
            proof {
                assert(self.emitted@ + Seq::<Seq<T>>::empty() =~= self.emitted@);
            }
            None
        } else {
            let mut full: Vec<T> = Vec::new();
            core::mem::swap(&mut full, &mut self.batch);
            proof {
                assert(old(self).emitted@ + seq![full@] =~= old(self).emitted@.push(full@));
            }
            self.emitted = Ghost(self.emitted@.push(full@));
            Some(full)
        }
    }

    /// The counters of the run so far, as a summary that reports no
    /// terminal failure.
    pub fn summary(&self) -> (s: RunSummary)
        ensures
            s == (RunSummary {
                lines_read: self.lines_read,
                records_ok: self.records_ok,
                parse_failures: self.parse_failures,
                failure: None,
            }),
    {
        RunSummary {
            lines_read: self.lines_read,
            records_ok: self.records_ok,
            parse_failures: self.parse_failures,
            failure: None,
        }
    }
}

/// Runs the parsing and batching part of ingestion over lines already in
/// memory: applies `parser` to every line in order, skips and counts the
/// lines it rejects, and groups the accepted records into batches.  Returns
/// the batches in dispatch order together with the run's summary.
pub fn ingest_lines<T, F: Fn(String) -> Result<T, ParseError>>(
    lines: &Vec<String>,
    parser: &F,
    batch_size: usize,
) -> (r: (Vec<Vec<T>>, RunSummary))
    requires
        batch_size >= 1,
        forall|line: String| call_requires(*parser, (line,)),
    ensures
        r.1.failure is None,
        r.1.lines_read == lines@.len(),
        exists|outcomes: Seq<Option<T>>|
            {
                &&& outcomes_valid(*parser, lines@, outcomes)
                &&& batch_views(r.0@) == chunk(successes(outcomes), batch_size as nat)
                &&& r.1.records_ok == successes(outcomes).len()
                &&& r.1.parse_failures == lines@.len() - successes(outcomes).len()
            },
{
    proof {
        assert(Seq::<Seq<T>>::empty().flatten() =~= Seq::<T>::empty());
        assert(successes(Seq::<Option<T>>::empty()) + Seq::<T>::empty() =~= successes(
            Seq::<Option<T>>::empty(),
        ));
        assert(batch_views(Seq::<Vec<T>>::empty()) =~= Seq::<Seq<T>>::empty());
    }
    let mut ingestor: Ingestor<T> = Ingestor {
        batch_size,
        batch: Vec::new(),
        lines_read: 0,
        records_ok: 0,
        parse_failures: 0,
        emitted: Ghost(Seq::empty()),
        outcomes: Ghost(Seq::empty()),
    };
    let mut batches: Vec<Vec<T>> = Vec::new();
    let mut i: usize = 0;
    while i < lines.len()
        invariant
            batch_size >= 1,
            forall|line: String| call_requires(*parser, (line,)),
            ingestor.inv(),
            ingestor.batch_size == batch_size,
            ingestor.lines_read == i,
            i <= lines.len(),
            outcomes_valid(*parser, lines@.take(i as int), ingestor.outcomes@),
            batch_views(batches@) == ingestor.emitted@,
        decreases lines.len() - i,
    {
        let line = lines[i].clone();
        let parsed = (*parser)(line);
        let ghost prev_take = lines@.take(i as int);
        let dispatched = ingestor.accept(parsed);
        match dispatched {
            Some(full) => {
                proof {
                    assert(batch_views(batches@.push(full)) =~= batch_views(batches@).push(
                        full@,
                    ));
                }
                batches.push(full);
            },
            None => {},
        }
        i = i + 1;
        proof {
            assert(lines@.take(i as int) =~= prev_take.push(lines@[i - 1]));
            assert(outcomes_valid(*parser, lines@.take(i as int), ingestor.outcomes@));
        }
    }
    proof {
        assert(lines@.take(lines@.len() as int) =~= lines@);
    }
    let last = ingestor.finish();
    match last {
        Some(full) => {
            proof {
                assert(batch_views(batches@.push(full)) =~= batch_views(batches@).push(full@));
            }
            batches.push(full);
        },
        None => {},
    }
    let summary = ingestor.summary();
    (batches, summary)
}

/// One whole ingestion run, from the outcome of opening the source to the
/// batches ready for the engine.  `source` is `None` when the configured
/// file could not be opened: such a run yields no batch and reports
/// [`IngestError::SourceUnavailable`].  Otherwise the lines are parsed and
/// batched as [`ingest_lines`] does, and the batches come back in dispatch
/// order, each owed to the engine exactly once.
///
/// This form materializes the whole run; to read, parse and dispatch
/// interleaved — a batch handed over the moment it fills — drive an
/// [`Ingestor`] line by line instead.
pub fn fill_from_log<T, F: Fn(String) -> Result<T, ParseError>>(
    args: &FillLogArg<F>,
    source: Option<Vec<String>>,
) -> (r: (Vec<Vec<T>>, RunSummary))
    requires
        args.batch_size >= 1,
        forall|line: String| call_requires(args.parser, (line,)),
    ensures
        source is None ==> r.0@ == Seq::<Vec<T>>::empty() && r.1 == (RunSummary {
            lines_read: 0,
            records_ok: 0,
            parse_failures: 0,
            failure: Some(IngestError::SourceUnavailable),
        }),
        source matches Some(lines) ==> {
            &&& r.1.failure is None
            &&& r.1.lines_read == lines@.len()
            &&& exists|outcomes: Seq<Option<T>>|
                {
                    &&& outcomes_valid(args.parser, lines@, outcomes)
                    &&& batch_views(r.0@) == chunk(successes(outcomes), args.batch_size as nat)
                    &&& r.1.records_ok == successes(outcomes).len()
                    &&& r.1.parse_failures == lines@.len() - successes(outcomes).len()
                }
        },
{
    match source {
        None => (
            Vec::new(),
            RunSummary {
                lines_read: 0,
                records_ok: 0,
                parse_failures: 0,
                failure: Some(IngestError::SourceUnavailable),
            },
        ),
        Some(lines) => ingest_lines(&lines, &args.parser, args.batch_size),
    }
}

/// The registered artifact the outer pipeline runs: a name, a logical
/// source label, and the configuration its run will use.  Built by
/// [`FillLogTea::new`]; its computation is [`IngestionUnit::run`].
pub struct IngestionUnit<F> {
    /// Name the unit is registered under.
    pub name: String,
    /// Logical label of the data source.
    pub source: String,
    /// The source configuration the run reads.
    pub params: FillLogArg<F>,
}

/// Builder of ingestion units, named for the Fill ingredient it stands in
/// for within the brewing pipeline.
pub struct FillLogTea {}

impl FillLogTea {
    /// Wraps a source configuration into a named, registrable ingestion
    /// unit.  Pure construction: no file is touched until the unit runs.
    pub fn new<F>(name: &str, source: &str, params: FillLogArg<F>) -> (unit: IngestionUnit<F>)
        ensures
            unit.name@ == name@,
            unit.source@ == source@,
            unit.params == params,
    {
        IngestionUnit { name: name.to_owned(), source: source.to_owned(), params }
    }
}

impl<F> IngestionUnit<F> {
    /// The unit's computation: one ingestion run of its configuration, as
    /// [`fill_from_log`] performs it.
    pub fn run<T>(&self, source: Option<Vec<String>>) -> (r: (
        Vec<Vec<T>>,
        RunSummary,
    )) where F: Fn(String) -> Result<T, ParseError>
        requires
            self.params.batch_size >= 1,
            forall|line: String| call_requires(self.params.parser, (line,)),
        ensures
            source is None ==> r.0@ == Seq::<Vec<T>>::empty() && r.1 == (RunSummary {
                lines_read: 0,
                records_ok: 0,
                parse_failures: 0,
                failure: Some(IngestError::SourceUnavailable),
            }),
            source matches Some(lines) ==> {
                &&& r.1.failure is None
                &&& r.1.lines_read == lines@.len()
                &&& exists|outcomes: Seq<Option<T>>|
                    {
                        &&& outcomes_valid(self.params.parser, lines@, outcomes)
                        &&& batch_views(r.0@) == chunk(
                            successes(outcomes),
                            self.params.batch_size as nat,
                        )
                        &&& r.1.records_ok == successes(outcomes).len()
                        &&& r.1.parse_failures == lines@.len() - successes(outcomes).len()
                    }
            },
    {
        fill_from_log(&self.params, source)
    }
}

} // verus!
