//! Where a finished layout goes: standard output, a file, both or neither.

use vstd::prelude::*;
use vstd::string::*;

verus! {

/// The destinations that the command line asked for.
#[derive(Debug, PartialEq, Eq)]
pub struct OutputSink {
    /// Whether the layout is written to standard output.
    pub print: bool,
    /// The file that receives the layout, if any.
    pub output: Option<String>,
}

/// The destinations of a sink as plain values.
pub struct SinkView {
    pub print: bool,
    pub output: Option<Seq<char>>,
}

impl View for OutputSink {
    type V = SinkView;

    open spec fn view(&self) -> SinkView {
        SinkView { print: self.print, output: self.output.deep_view() }
    }
}

/// One write that delivers a layout.
#[derive(Copy, Clone, Debug, PartialEq, Eq)]
pub enum Delivery<'a> {
    /// Write the bytes to standard output, with nothing added.
    Stdout { bytes: &'a [u8] },
    /// Create or truncate the file at `path` and write the bytes to it.
    File { path: &'a str, bytes: &'a [u8] },
}

/// What a delivery does, as plain values.
pub enum Effect {
    Stdout { bytes: Seq<u8> },
    File { path: Seq<char>, bytes: Seq<u8> },
}

impl<'a> View for Delivery<'a> {
    type V = Effect;

    open spec fn view(&self) -> Effect {
        match *self {
            Delivery::Stdout { bytes } => Effect::Stdout { bytes: bytes@ },
            Delivery::File { path, bytes } => Effect::File { path: path@, bytes: bytes@ },
        }
    }
}

/// What a sequence of deliveries does, in order.
pub open spec fn effects_of(plan: Seq<Delivery<'_>>) -> Seq<Effect> {
    Seq::new(plan.len(), |i: int| plan[i]@)
}

/// The writes that deliver `bytes` to `sink`: standard output first, then the file.
pub open spec fn planned_effects(sink: SinkView, bytes: Seq<u8>) -> Seq<Effect> {
    let stdout = if sink.print {
        seq![Effect::Stdout { bytes }]
    } else {
        Seq::<Effect>::empty()
    };
    let file = match sink.output {
        Some(path) => seq![Effect::File { path, bytes }],
        None => Seq::<Effect>::empty(),
    };
    stdout + file
}

impl OutputSink {
    /// A sink that prints if `print` and writes to the file `output` if there is one.
    pub fn new(print: bool, output: Option<String>) -> (sink: OutputSink)
        ensures
            sink@ == (SinkView { print, output: output.deep_view() }),
    {
        OutputSink { print, output }
    }

    /// The writes that deliver `artifact` to this sink, in the order to perform them.
    ///
    /// Every write carries the UTF-8 bytes of `artifact` unchanged. Standard
    /// output comes first if printing was asked for, then the file if one was named.
    pub fn deliveries<'a>(&'a self, artifact: &'a str) -> (plan: Vec<Delivery<'a>>)
        ensures
            effects_of(plan@) == planned_effects(self@, artifact.spec_bytes()),
            !self.print && self.output is None ==> plan@.len() == 0,
            self.print && self.output is Some ==> plan@.len() == 2 && plan@[0]@ == (Effect::Stdout {
                bytes: artifact.spec_bytes(),
            }) && plan@[1]@ == (Effect::File {
                path: self.output->0@,
                bytes: artifact.spec_bytes(),
            }),
    {
        let bytes = artifact.as_bytes();
        let mut plan: Vec<Delivery<'a>> = Vec::new();
        if self.print {
            plan.push(Delivery::Stdout { bytes });
        }
        match &self.output {
            Some(path) => {
                plan.push(Delivery::File { path: path.as_str(), bytes });
            },
            None => {},
        }
        assert(effects_of(plan@) =~= planned_effects(self@, artifact.spec_bytes()));
        plan
    }
}

/// A sink with no destination plans no write, whatever the layout.
pub proof fn lemma_silent_sink(sink: SinkView, bytes: Seq<u8>)
    requires
        !sink.print,
        sink.output is None,
    ensures
        planned_effects(sink, bytes) == Seq::<Effect>::empty(),
{
}

/// A sink with both destinations plans two writes of the same bytes: to
/// standard output first, then to the file.
pub proof fn lemma_both_destinations(sink: SinkView, bytes: Seq<u8>)
    requires
        sink.print,
        sink.output is Some,
    ensures
        planned_effects(sink, bytes) == seq![
            Effect::Stdout { bytes },
            Effect::File { path: sink.output->0, bytes },
        ],
{
    assert(planned_effects(sink, bytes) =~= seq![
        Effect::Stdout { bytes },
        Effect::File { path: sink.output->0, bytes },
    ]);
}

} // verus!
