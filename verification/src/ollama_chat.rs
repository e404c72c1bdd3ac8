//! The chat capability's descriptor side.  The chat session itself — the
//! HTTP streaming, the prompt loop, the model options — is an external
//! collaborator of the core and runs in the host program; the host composes
//! this capability into its CLI from the descriptor here.

use crate::host::{ArgKind, ArgSpec, CapabilityDescriptor};
use vstd::prelude::*;
use vstd::string::StringExecFns;

verus! {

/// The chat capability's descriptor side.
pub struct OllamaChatPlugin;

impl OllamaChatPlugin {
    /// A sample configuration file.  The text is illustrative only.
    pub fn sample_config() -> &'static str {
        "# Ollama Chat Configuration\nurl = \"http://localhost:11434\"\nmodel = \"llama3.1:8b\"\ntemperature = 0.7\ntop_p = 0.9\ntop_k = 40\nsystem_prompt = \"You are a helpful AI assistant specialized in software development and technical support.\"\nstream = true\n\n# Alternative configurations:\n# For Code Generation:\n# model = \"codellama:13b\"\n# system_prompt = \"You are an expert programmer. Provide clean, well-commented code.\"\n\n# For General Chat:\n# model = \"llama3.1:70b\"\n# temperature = 0.8\n# system_prompt = \"You are a friendly and knowledgeable assistant.\"\n"
    }

    /// The capability's unique name, which is also its subcommand.
    pub fn name(&self) -> (r: String)
        ensures
            r@ == "ollama_chat"@,
    {
        String::from_str("ollama_chat")
    }

    /// The capability's version.
    pub fn version(&self) -> (r: String)
        ensures
            r@ == "0.1.0"@,
    {
        String::from_str("0.1.0")
    }

    /// The capability's one-line description.
    pub fn description(&self) -> (r: String)
        ensures
            r@ == "Interactive streaming chat interface for Ollama"@,
    {
        String::from_str("Interactive streaming chat interface for Ollama")
    }

    /// The capability's descriptor: model, endpoint and temperature
    /// overrides.  The temperature is numeric; the host parses it, since
    /// its value never enters this crate.
    pub fn descriptor(&self) -> (d: CapabilityDescriptor)
        ensures
            d.name@ == "ollama_chat"@,
            d.version@ == "0.1.0"@,
            d.description@ == "Interactive streaming chat interface for Ollama"@,
            d.args@.len() == 3,
            d.args@[0].name@ == "model"@ && d.args@[0].short == Some('m')
                && d.args@[0].kind is Text,
            d.args@[1].name@ == "url"@ && d.args@[1].short == Some('u') && d.args@[1].kind is Text,
            d.args@[2].name@ == "temperature"@ && d.args@[2].short == Some('t')
                && d.args@[2].kind is Number,
            forall|i: int| 0 <= i < 3 ==> !(#[trigger] d.args@[i]).required,
    {
        let mut args: Vec<ArgSpec> = Vec::new();
        args.push(
            ArgSpec {
                name: String::from_str("model"),
                short: Some('m'),
                value_name: Some(String::from_str("MODEL")),
                help: String::from_str("Override the model from config file"),
                kind: ArgKind::Text,
                required: false,
            },
        );
        args.push(
            ArgSpec {
                name: String::from_str("url"),
                short: Some('u'),
                value_name: Some(String::from_str("URL")),
                help: String::from_str("Override the Ollama URL from config file"),
                kind: ArgKind::Text,
                required: false,
            },
        );
        args.push(
            ArgSpec {
                name: String::from_str("temperature"),
                short: Some('t'),
                value_name: Some(String::from_str("TEMP")),
                help: String::from_str("Set temperature (0.0-1.0)"),
                kind: ArgKind::Number,
                required: false,
            },
        );
        CapabilityDescriptor {
            name: self.name(),
            version: self.version(),
            description: self.description(),
            args,
        }
    }
}

} // verus!
