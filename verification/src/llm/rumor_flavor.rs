//! Rumor flavoring through the language model.

use vstd::prelude::*;
use vstd::string::*;

verus! {

/// Who delivers a rumor.
#[derive(Debug, Clone)]
pub enum RumorSource {
    Overheard,
    DockWorker,
    NewsTerminal,
    FactionContact { name: String, title: String },
}

pub open spec fn source_description(s: RumorSource) -> Seq<char> {
    match s {
        RumorSource::Overheard => "overheard in a common area by an anonymous voice"@,
        RumorSource::DockWorker => "mentioned casually by a dock worker or station hand"@,
        RumorSource::NewsTerminal => "displayed on a news terminal or bulletin board"@,
        RumorSource::FactionContact { name, title } =>
            "shared by "@ + name@ + " ("@ + title@ + "), a faction contact"@,
    }
}

impl RumorSource {
    /// How the rumor reaches the player, for the prompt.
    pub fn description(&self) -> (r: String)
        ensures
            r@ == source_description(*self),
    {
        match self {
            RumorSource::Overheard => "overheard in a common area by an anonymous voice".to_owned(),
            RumorSource::DockWorker => "mentioned casually by a dock worker or station hand".to_owned(),
            RumorSource::NewsTerminal => "displayed on a news terminal or bulletin board".to_owned(),
            RumorSource::FactionContact { name, title } => {
                let mut r = "shared by ".to_owned();
                r.append(name.as_str());
                r.append(" (");
                r.append(title.as_str());
                r.append("), a faction contact");
                r
            },
        }
    }
}

pub open spec fn rumor_message_of(fact: Seq<char>, source: RumorSource, location: Seq<char>) -> Seq<char> {
    "LOCATION: "@ + location + "\nSOURCE: "@ + source_description(source) + "\nFACT: "@ + fact
        + "\n\nWrite 2-3 sentences delivering this fact in-world."@
}

/// Build the user message asking the model to deliver a rumor in-world.
pub fn rumor_user_message(mechanical_fact: &str, source: &RumorSource, location_name: &str) -> (r: String)
    ensures
        r@ == rumor_message_of(mechanical_fact@, *source, location_name@),
{
    let mut r = "LOCATION: ".to_owned();
    r.append(location_name);
    r.append("\nSOURCE: ");
    let d = source.description();
    r.append(d.as_str());
    r.append("\nFACT: ");
    r.append(mechanical_fact);
    r.append("\n\nWrite 2-3 sentences delivering this fact in-world.");
    r
}

} // verus!
