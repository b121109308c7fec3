//! Building the setup of a session before connecting.
use vstd::prelude::*;
use crate::types::{
    AudioTranscriptionConfig, BidiGenerateContentSetup, Content, FunctionDeclaration,
    GenerationConfig, RealtimeInputConfig, Tool,
};

verus! {

/// The setup of a client: the API key, the setup message sent when the session
/// opens, and the application state shared with the handlers.
pub struct GeminiLiveClientBuilder<S: Clone + Send + Sync + 'static> {
    pub api_key: String,
    pub initial_setup: BidiGenerateContentSetup,
    pub state: S,
}

/// The declarations of each tool, in order.
pub open spec fn tool_declarations(tools: Seq<Tool>) -> Seq<Seq<FunctionDeclaration>> {
    tools.map_values(|t: Tool| t.function_declarations@)
}

/// The declarations of each tool after `d` is added: to the first tool, or to a
/// new tool when there is none.
pub open spec fn add_declaration(
    lists: Seq<Seq<FunctionDeclaration>>,
    d: FunctionDeclaration,
) -> Seq<Seq<FunctionDeclaration>> {
    if lists.len() > 0 {
        lists.update(0, lists[0].push(d))
    } else {
        seq![seq![d]]
    }
}

/// The declarations of each tool after the declarations `ds` are added in order.
pub open spec fn add_declarations(
    lists: Seq<Seq<FunctionDeclaration>>,
    ds: Seq<FunctionDeclaration>,
) -> Seq<Seq<FunctionDeclaration>>
    decreases ds.len(),
{
    if ds.len() == 0 {
        lists
    } else {
        add_declaration(add_declarations(lists, ds.drop_last()), ds.last())
    }
}

/// The declarations of each tool of an optional tool list.
pub open spec fn declaration_lists(tools: Option<Vec<Tool>>) -> Seq<Seq<FunctionDeclaration>> {
    match tools {
        Some(v) => tool_declarations(v@),
        None => Seq::empty(),
    }
}

/// The declarations of each tool after `d` is added to the tools of a setup.
pub open spec fn with_declaration(
    tools: Option<Vec<Tool>>,
    d: FunctionDeclaration,
) -> Seq<Seq<FunctionDeclaration>> {
    add_declaration(declaration_lists(tools), d)
}

/// Whether a setup offers at most one tool. Every setup that a builder makes
/// does: `new` and `new_with_state` start with no tool, the setters leave the
/// tools alone, and `add_tool_declaration` keeps a single tool.
pub open spec fn has_at_most_one_tool(s: BidiGenerateContentSetup) -> bool {
    s.tools matches Some(v) ==> v@.len() <= 1
}

/// The declarations of the single tool, if there is one.
pub open spec fn single_tool_declarations(tools: Option<Vec<Tool>>) -> Seq<FunctionDeclaration> {
    match tools {
        Some(v) if v@.len() == 1 => v@[0].function_declarations@,
        _ => Seq::empty(),
    }
}

/// Two setups that differ at most in their tools.
pub open spec fn same_but_tools(a: BidiGenerateContentSetup, b: BidiGenerateContentSetup) -> bool {
    &&& a.model == b.model
    &&& a.generation_config == b.generation_config
    &&& a.system_instruction == b.system_instruction
    &&& a.realtime_input_config == b.realtime_input_config
    &&& a.session_resumption == b.session_resumption
    &&& a.context_window_compression == b.context_window_compression
    &&& a.output_audio_transcription == b.output_audio_transcription
}

/// The setup of a session with `model` and nothing else set.
pub open spec fn setup_for_model(model: String) -> BidiGenerateContentSetup {
    BidiGenerateContentSetup {
        model,
        generation_config: None,
        system_instruction: None,
        tools: None,
        realtime_input_config: None,
        session_resumption: None,
        context_window_compression: None,
        output_audio_transcription: None,
    }
}

impl<S: Clone + Send + Sync + 'static + Default> GeminiLiveClientBuilder<S> {
    /// A builder for `model` with the default application state.
    pub fn new(api_key: String, model: String) -> (r: Self)
        ensures
            r.api_key == api_key,
            r.initial_setup == setup_for_model(model),
            has_at_most_one_tool(r.initial_setup),
    {
        Self::new_with_state(api_key, model, S::default())
    }
}

impl<S: Clone + Send + Sync + 'static> GeminiLiveClientBuilder<S> {
    /// A builder for `model` with the given application state; nothing else of
    /// the setup is set.
    pub fn new_with_state(api_key: String, model: String, state: S) -> (r: Self)
        ensures
            r.api_key == api_key,
            r.state == state,
            r.initial_setup == setup_for_model(model),
            has_at_most_one_tool(r.initial_setup),
    {
        GeminiLiveClientBuilder {
            api_key,
            initial_setup: BidiGenerateContentSetup {
                model,
                generation_config: None,
                system_instruction: None,
                tools: None,
                realtime_input_config: None,
                session_resumption: None,
                context_window_compression: None,
                output_audio_transcription: None,
            },
            state,
        }
    }

    /// Sets the generation parameters.
    pub fn generation_config(self, config: GenerationConfig) -> (r: Self)
        ensures
            r == (GeminiLiveClientBuilder {
                initial_setup: BidiGenerateContentSetup {
                    generation_config: Some(config),
                    ..self.initial_setup
                },
                ..self
            }),
    {
        let mut b = self;
        b.initial_setup.generation_config = Some(config);
        b
    }

    /// Sets the system instruction.
    pub fn system_instruction(self, instruction: Content) -> (r: Self)
        ensures
            r == (GeminiLiveClientBuilder {
                initial_setup: BidiGenerateContentSetup {
                    system_instruction: Some(instruction),
                    ..self.initial_setup
                },
                ..self
            }),
    {
        let mut b = self;
        b.initial_setup.system_instruction = Some(instruction);
        b
    }

    /// Declares a function to the model: it joins the declarations of the first
    /// tool, or a new tool when there is none.
    pub fn add_tool_declaration(self, declaration: FunctionDeclaration) -> (r: Self)
        ensures
            r.api_key == self.api_key,
            r.state == self.state,
            same_but_tools(r.initial_setup, self.initial_setup),
            r.initial_setup.tools is Some,
            tool_declarations(r.initial_setup.tools->0@) == with_declaration(
                self.initial_setup.tools,
                declaration,
            ),
            has_at_most_one_tool(self.initial_setup) ==> {
                &&& r.initial_setup.tools->0@.len() == 1
                &&& r.initial_setup.tools->0@[0].function_declarations@
                    == single_tool_declarations(self.initial_setup.tools).push(declaration)
            },
    {
        let ghost d = declaration;
        let ghost old_tools = self.initial_setup.tools;
        let mut b = self;
        let mut tools = match b.initial_setup.tools.take() {
            Some(v) => v,
            None => Vec::new(),
        };
        if tools.len() > 0 {
            let ghost before = tools@;
            let mut first = tools.remove(0);
            first.function_declarations.push(declaration);
            tools.insert(0, first);
            proof {
                assert(tool_declarations(tools@) =~= tool_declarations(before).update(
                    0,
                    tool_declarations(before)[0].push(d),
                ));
            }
        } else {
            let mut declarations: Vec<FunctionDeclaration> = Vec::new();
            declarations.push(declaration);
            tools.push(Tool { function_declarations: declarations });
            proof {
                assert(tool_declarations(tools@)[0] =~= seq![d]);
                assert(tool_declarations(tools@) =~= seq![seq![d]]);
            }
        }
        proof {
            if (old_tools matches Some(v) ==> v@.len() <= 1) {
                lemma_declarations_accumulate(old_tools, d);
                assert(tool_declarations(tools@).len() == tools@.len());
                assert(tool_declarations(tools@)[0] == tools@[0].function_declarations@);
            }
        }
        b.initial_setup.tools = Some(tools);
        b
    }

    /// Sets how real-time input is handled.
    pub fn realtime_input_config(self, config: RealtimeInputConfig) -> (r: Self)
        ensures
            r == (GeminiLiveClientBuilder {
                initial_setup: BidiGenerateContentSetup {
                    realtime_input_config: Some(config),
                    ..self.initial_setup
                },
                ..self
            }),
    {
        let mut b = self;
        b.initial_setup.realtime_input_config = Some(config);
        b
    }

    /// Asks for a transcription of the model's audio output.
    pub fn output_audio_transcription(self, config: AudioTranscriptionConfig) -> (r: Self)
        ensures
            r == (GeminiLiveClientBuilder {
                initial_setup: BidiGenerateContentSetup {
                    output_audio_transcription: Some(config),
                    ..self.initial_setup
                },
                ..self
            }),
    {
        let mut b = self;
        b.initial_setup.output_audio_transcription = Some(config);
        b
    }
}

/// Declarations accumulate: when the setup has at most one tool, adding a
/// declaration leaves exactly one tool, holding the earlier declarations
/// followed by the new one.
pub proof fn lemma_declarations_accumulate(tools: Option<Vec<Tool>>, d: FunctionDeclaration)
    requires
        tools matches Some(v) ==> v@.len() <= 1,
    ensures
        with_declaration(tools, d).len() == 1,
        with_declaration(tools, d)[0] == single_tool_declarations(tools).push(d),
{
    match tools {
        Some(v) if v@.len() == 1 => {},
        _ => {
            assert(Seq::<FunctionDeclaration>::empty().push(d) =~= seq![d]);
        },
    }
}

/// Declarations accumulate over any sequence of additions: starting from at
/// most one tool, adding the declarations `ds` in order leaves a single tool
/// holding the earlier declarations followed by `ds`, duplicates kept.
pub proof fn lemma_declarations_accumulate_all(
    lists: Seq<Seq<FunctionDeclaration>>,
    ds: Seq<FunctionDeclaration>,
)
    requires
        lists.len() <= 1,
        ds.len() > 0,
    ensures
        add_declarations(lists, ds) == seq![
            (if lists.len() == 1 { lists[0] } else { Seq::empty() }) + ds,
        ],
    decreases ds.len(),
{
    let first: Seq<FunctionDeclaration> = if lists.len() == 1 { lists[0] } else { Seq::empty() };
    if ds.len() == 1 {
        assert(ds.drop_last() =~= Seq::<FunctionDeclaration>::empty());
        assert(first + ds =~= first.push(ds.last()));
        assert(add_declarations(lists, ds.drop_last()) == lists);
        assert(add_declarations(lists, ds) == add_declaration(lists, ds.last()));
        if lists.len() == 1 {
            assert(lists.update(0, lists[0].push(ds.last())) =~= seq![first.push(ds.last())]);
        } else {
            assert(lists.len() == 0);
        }
        assert(add_declarations(lists, ds) =~= seq![first + ds]);
    } else {
        lemma_declarations_accumulate_all(lists, ds.drop_last());
        let before = add_declarations(lists, ds.drop_last());
        assert(before == seq![first + ds.drop_last()]);
        assert(first + ds =~= (first + ds.drop_last()).push(ds.last()));
        assert(before.update(0, before[0].push(ds.last())) =~= seq![first + ds]);
        assert(add_declarations(lists, ds) =~= seq![first + ds]);
    }
}

} // verus!
