//! What the host shows to the user who sets the server up.

use crate::names::CONTEXT_SERVER_ID;
use vstd::prelude::*;

verus! {

/// The texts for setting the server up. The library hands them on as they
/// are and never looks inside.
#[derive(Debug, Clone, PartialEq, Eq)]
pub struct ContextServerConfiguration {
    /// How to install the server, for a human reader.
    pub installation_instructions: String,
    /// The JSON schema of the settings.
    pub settings_schema: String,
    /// The settings that a new configuration starts from.
    pub default_settings: String,
}

/// The mathematical model of a [`ContextServerConfiguration`].
pub struct ContextServerConfigurationView {
    pub installation_instructions: Seq<char>,
    pub settings_schema: Seq<char>,
    pub default_settings: Seq<char>,
}

impl View for ContextServerConfiguration {
    type V = ContextServerConfigurationView;

    open spec fn view(&self) -> ContextServerConfigurationView {
        ContextServerConfigurationView {
            installation_instructions: self.installation_instructions@,
            settings_schema: self.settings_schema@,
            default_settings: self.default_settings@,
        }
    }
}

/// The configuration offered for a server: none for any server but the
/// supported one, and for that one the three texts unchanged.
pub open spec fn configuration_for(
    id: Seq<char>,
    installation_instructions: Seq<char>,
    settings_schema: Seq<char>,
    default_settings: Seq<char>,
) -> Option<ContextServerConfigurationView> {
    if id == CONTEXT_SERVER_ID@ {
        Some(
            ContextServerConfigurationView {
                installation_instructions,
                settings_schema,
                default_settings,
            },
        )
    } else {
        None
    }
}

/// A server other than the supported one has no configuration: that is an
/// answer, not an error.
pub proof fn lemma_unsupported_server_has_no_configuration(
    id: Seq<char>,
    installation_instructions: Seq<char>,
    settings_schema: Seq<char>,
    default_settings: Seq<char>,
)
    requires
        id != CONTEXT_SERVER_ID@,
    ensures
        configuration_for(id, installation_instructions, settings_schema, default_settings)
            is None,
{
}

/// The supported server's configuration holds the three texts unchanged.
pub proof fn lemma_configuration_is_verbatim(
    installation_instructions: Seq<char>,
    settings_schema: Seq<char>,
    default_settings: Seq<char>,
)
    ensures
        configuration_for(
            CONTEXT_SERVER_ID@,
            installation_instructions,
            settings_schema,
            default_settings,
        ) == Some(
            ContextServerConfigurationView {
                installation_instructions,
                settings_schema,
                default_settings,
            },
        ),
{
}

} // verus!
