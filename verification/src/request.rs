//! One invocation of the tool, validated, and the layout computation it selects.

use vstd::prelude::*;

use crate::address::{address_of, parse_address};
use crate::error::Error;
use crate::fw_top::{is_fw_top, validate_fw_top, validated_fw_top, FW_TOP_CEILING};
use crate::mode::ConfigType;
use crate::output::{OutputSink, SinkView};

verus! {

/// A validated invocation: what the command line asked for, after every check.
#[derive(Debug, PartialEq, Eq)]
pub struct InvocationRequest {
    config: String,
    mode: ConfigType,
    base: u64,
    fw_top: Option<u64>,
    output: Option<String>,
    print: bool,
}

/// An invocation as plain values.
pub struct RequestView {
    /// The configuration text, as read.
    pub config: Seq<char>,
    /// The interpretation of the configuration.
    pub mode: ConfigType,
    /// The memory base address.
    pub base: u64,
    /// The firmware top, if one was given.
    pub fw_top: Option<u64>,
    /// The file that receives the layout, if any.
    pub output: Option<Seq<char>>,
    /// Whether the layout is written to standard output.
    pub print: bool,
}

impl RequestView {
    /// What holds of every validated invocation: a firmware top is present in
    /// the image mode only, and then it is at most 4 GiB and 4 KiB-aligned.
    pub open spec fn is_valid(self) -> bool {
        self.fw_top matches Some(fw_top) ==> self.mode == ConfigType::Image && is_fw_top(fw_top)
    }

    /// The bound for the firmware image: the firmware top, or the ceiling
    /// where none was given.
    pub open spec fn ceiling(self) -> u64 {
        match self.fw_top {
            Some(fw_top) => fw_top,
            None => FW_TOP_CEILING,
        }
    }
}

/// The layout computation to run, with its arguments.
#[derive(Debug, PartialEq, Eq)]
pub enum LayoutCall {
    /// Compute the memory layout of the configuration.
    Memory { config: String },
    /// Compute the image layout of the configuration below the firmware top.
    Image { config: String, fw_top: u64 },
}

/// A layout computation as plain values.
pub enum LayoutCallView {
    Memory { config: Seq<char> },
    Image { config: Seq<char>, fw_top: u64 },
}

impl View for LayoutCall {
    type V = LayoutCallView;

    open spec fn view(&self) -> LayoutCallView {
        match *self {
            LayoutCall::Memory { config } => LayoutCallView::Memory { config: config@ },
            LayoutCall::Image { config, fw_top } => LayoutCallView::Image {
                config: config@,
                fw_top,
            },
        }
    }
}

/// The invocation that the raw arguments amount to, or the first failure.
///
/// The base address is parsed first, then the firmware top is validated.
pub open spec fn request_of(
    config: Seq<char>,
    mode: ConfigType,
    base: Seq<char>,
    fw_top: Option<Seq<char>>,
    output: Option<Seq<char>>,
    print: bool,
) -> Result<RequestView, Error> {
    match address_of(base) {
        None => Err(Error::Parse),
        Some(base) => match validated_fw_top(mode, fw_top) {
            Err(error) => Err(error),
            Ok(bound) => Ok(
                RequestView {
                    config,
                    mode,
                    base,
                    fw_top: if fw_top is Some {
                        Some(bound)
                    } else {
                        None
                    },
                    output,
                    print,
                },
            ),
        },
    }
}

/// The layout computation that an invocation selects: by its mode alone.
pub open spec fn layout_call_of(request: RequestView) -> LayoutCallView {
    match request.mode {
        ConfigType::Memory => LayoutCallView::Memory { config: request.config },
        ConfigType::Image => LayoutCallView::Image {
            config: request.config,
            fw_top: request.ceiling(),
        },
    }
}

/// The destinations that an invocation names.
pub open spec fn sink_of(request: RequestView) -> SinkView {
    SinkView { print: request.print, output: request.output }
}

impl View for InvocationRequest {
    type V = RequestView;

    closed spec fn view(&self) -> RequestView {
        RequestView {
            config: self.config@,
            mode: self.mode,
            base: self.base,
            fw_top: self.fw_top,
            output: self.output.deep_view(),
            print: self.print,
        }
    }
}

impl InvocationRequest {
    #[verifier::type_invariant]
    spec fn well_formed(&self) -> bool {
        self@.is_valid()
    }

    /// Validates the raw arguments of one invocation.
    ///
    /// `base` must be an address literal, else the result is [`Error::Parse`].
    /// Then `fw_top` is validated as [`validate_fw_top`] says. Nothing else can
    /// fail, and the other arguments are kept as they are.
    pub fn new(
        config: String,
        mode: ConfigType,
        base: &str,
        fw_top: Option<&str>,
        output: Option<String>,
        print: bool,
    ) -> (r: Result<InvocationRequest, Error>)
        ensures
            match (
                r,
                request_of(config@, mode, base@, fw_top.deep_view(), output.deep_view(), print),
            ) {
                (Ok(request), Ok(view)) => request@ == view,
                (Err(error), Err(expected)) => error == expected,
                _ => false,
            },
            r matches Ok(request) ==> request@.is_valid(),
    {
        let base = match parse_address(base) {
            Ok(base) => base,
            Err(_) => {
                return Err(Error::Parse);
            },
        };
        let bound = match validate_fw_top(mode, fw_top) {
            Ok(bound) => bound,
            Err(error) => {
                return Err(error);
            },
        };
        let fw_top = match fw_top {
            Some(_) => Some(bound),
            None => None,
        };
        Ok(InvocationRequest { config, mode, base, fw_top, output, print })
    }

    /// The configuration text.
    pub fn config(&self) -> (config: &str)
        ensures
            config@ == self@.config,
    {
        self.config.as_str()
    }

    /// The interpretation of the configuration.
    pub fn mode(&self) -> (mode: ConfigType)
        ensures
            mode == self@.mode,
    {
        self.mode
    }

    /// The memory base address.
    pub fn base(&self) -> (base: u64)
        ensures
            base == self@.base,
    {
        self.base
    }

    /// The firmware top, if one was given: then the mode is the image mode, and
    /// the address is at most 4 GiB and 4 KiB-aligned.
    pub fn fw_top(&self) -> (fw_top: Option<u64>)
        ensures
            fw_top == self@.fw_top,
            self@.is_valid(),
    {
        proof {
            use_type_invariant(self);
        }
        self.fw_top
    }

    /// The bound for the firmware image: the firmware top, or the ceiling
    /// where none was given.
    pub fn ceiling(&self) -> (bound: u64)
        ensures
            bound == self@.ceiling(),
            is_fw_top(bound),
    {
        proof {
            use_type_invariant(self);
        }
        match self.fw_top {
            Some(fw_top) => fw_top,
            None => FW_TOP_CEILING,
        }
    }

    /// The file that receives the layout, if any.
    pub fn output(&self) -> (output: Option<&str>)
        ensures
            output.deep_view() == self@.output,
    {
        match &self.output {
            Some(path) => Some(path.as_str()),
            None => None,
        }
    }

    /// Whether the layout is written to standard output.
    pub fn print(&self) -> (print: bool)
        ensures
            print == self@.print,
    {
        self.print
    }

    /// Selects the layout computation and hands over the destinations.
    ///
    /// The mode alone decides: the memory layout takes the configuration text,
    /// the image layout takes it with the validated firmware top.
    pub fn dispatch(self) -> (r: (LayoutCall, OutputSink))
        ensures
            r.0@ == layout_call_of(self@),
            r.1@ == sink_of(self@),
            r.0 matches LayoutCall::Image { fw_top, .. } ==> is_fw_top(fw_top),
    {
        proof {
            use_type_invariant(&self);
        }
        let fw_top = self.ceiling();
        let sink = OutputSink::new(self.print, self.output);
        let call = match self.mode {
            ConfigType::Memory => LayoutCall::Memory { config: self.config },
            ConfigType::Image => LayoutCall::Image { config: self.config, fw_top },
        };
        (call, sink)
    }
}

/// An invocation that passes validation is valid, whatever the arguments: it
/// holds a firmware top exactly if one was given, which the image mode alone
/// allows, and the bound it hands to the image layout is at most 4 GiB and
/// 4 KiB-aligned.
pub proof fn lemma_request_is_valid(
    config: Seq<char>,
    mode: ConfigType,
    base: Seq<char>,
    fw_top: Option<Seq<char>>,
    output: Option<Seq<char>>,
    print: bool,
)
    ensures
        request_of(config, mode, base, fw_top, output, print) matches Ok(request) ==> {
            &&& request.is_valid()
            &&& request.fw_top is Some <==> fw_top is Some
            &&& fw_top is Some ==> mode == ConfigType::Image
            &&& is_fw_top(request.ceiling())
        },
{
}

} // verus!
