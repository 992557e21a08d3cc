//! Message components (buttons and select menus): which handler a custom id
//! reaches, and the self-service game-role menus with their submissions.

use vstd::prelude::*;
use vstd::string::*;
use crate::application_commands::CommandError;
use crate::catalog::{all_resolved, contains_id, names_of, role_names, GameCatalog, GuildSnapshot};
use crate::text::{decimal, decimal_text, id_of, role_mention, role_mention_text, same_text};

pub mod game_add;
pub mod game_add_reply;
pub mod game_remove;
pub mod game_remove_reply;
pub mod test_button_message;
pub mod test_modal;
pub mod test_single_select;

verus! {

/// Why a component interaction failed.
#[derive(Debug)]
pub enum ComponentInteractionError {
    /// The interaction lacks a value; holds the handler's name.
    ArgumentMissing(String),
    /// The interaction holds the wrong kind of value; holds the handler's name and a message.
    UnresolvedData(String, String),
    /// The key-value store failed.
    RedisError(String),
    /// The guild snapshot disagrees with the stored state.
    CacheError(String),
    /// Any other failure.
    Other(String),
}

impl ComponentInteractionError {
    /// The same failure, met while a component was handled.
    pub fn from_command(e: CommandError) -> (r: Self)
        ensures
            e matches CommandError::ArgumentMissing(a) ==> (r matches ComponentInteractionError::ArgumentMissing(b) && a@ == b@),
            e matches CommandError::UnresolvedData(a, m) ==> (r matches ComponentInteractionError::UnresolvedData(b, n) && a@ == b@ && m@ == n@),
            e matches CommandError::RedisError(a) ==> (r matches ComponentInteractionError::RedisError(b) && a@ == b@),
            e matches CommandError::CacheError(a) ==> (r matches ComponentInteractionError::CacheError(b) && a@ == b@),
            e matches CommandError::Other(a) ==> (r matches ComponentInteractionError::Other(b) && a@ == b@),
    {
        match e {
            CommandError::ArgumentMissing(a) => ComponentInteractionError::ArgumentMissing(a),
            CommandError::UnresolvedData(a, m) => ComponentInteractionError::UnresolvedData(a, m),
            CommandError::RedisError(a) => ComponentInteractionError::RedisError(a),
            CommandError::CacheError(a) => ComponentInteractionError::CacheError(a),
            CommandError::Other(a) => ComponentInteractionError::Other(a),
        }
    }
}

/// A text input of a modal form.
#[derive(Debug)]
pub struct InputField {
    pub custom_id: String,
    pub label: String,
    pub placeholder: String,
    pub required: bool,
    /// A one-line input, else a paragraph.
    pub short: bool,
}

/// A modal form to open: its custom id, its title and its inputs, in order.
#[derive(Debug)]
pub struct ModalSettings {
    pub custom_id: String,
    pub title: String,
    pub components: Vec<InputField>,
}

impl ModalSettings {
    pub fn new(custom_id: String, title: String, components: Vec<InputField>) -> (r: Self)
        ensures
            r.custom_id == custom_id,
            r.title == title,
            r.components == components,
    {
        ModalSettings { custom_id, title, components }
    }
}

/// What a component handler leaves to be sent: a message, a modal, or neither.
#[derive(Debug)]
pub struct MessageComponentResponseBundle {
    pub message: Option<String>,
    pub modal: Option<ModalSettings>,
}

/// The component handlers.
#[derive(Debug, Clone, Copy, PartialEq, Eq, Structural)]
pub enum ComponentCommand {
    TestSingleSelect,
    TestMultipleSelect,
    TestButtonMessage,
    TestModal,
    PickGamesRemove,
    PickGamesAdd,
    GameRemoveReply,
    GameAddReply,
}

/// The handler that the custom id `id` reaches, if any.
pub open spec fn component_of(id: Seq<char>) -> Option<ComponentCommand> {
    if id == "test-single-select"@ {
        Some(ComponentCommand::TestSingleSelect)
    } else if id == "test-multiple-select"@ {
        Some(ComponentCommand::TestMultipleSelect)
    } else if id == "test-button-message"@ {
        Some(ComponentCommand::TestButtonMessage)
    } else if id == "test-modal"@ {
        Some(ComponentCommand::TestModal)
    } else if id == "pick-games-remove"@ {
        Some(ComponentCommand::PickGamesRemove)
    } else if id == "pick-games-add"@ {
        Some(ComponentCommand::PickGamesAdd)
    } else if id == "game-remove-reply"@ {
        Some(ComponentCommand::GameRemoveReply)
    } else if id == "game-add-reply"@ {
        Some(ComponentCommand::GameAddReply)
    } else {
        None
    }
}

/// Where a component interaction goes.
pub enum ComponentDispatch {
    Run(ComponentCommand),
    Done(MessageComponentResponseBundle),
}

/// Looks up the handler of the custom id `id`. An unknown id is not an error:
/// it finishes with a fixed message.
pub fn execute_command(id: &str) -> (r: ComponentDispatch)
    ensures
        component_of(id@) matches Some(c) ==> r == ComponentDispatch::Run(c),
        component_of(id@) is None ==> (r matches ComponentDispatch::Done(b) && b.modal is None
            && (b.message matches Some(t) && t@
            == "Message Component response removed or not implemented"@)),
{
    if same_text(id, "test-single-select") {
        ComponentDispatch::Run(ComponentCommand::TestSingleSelect)
    } else if same_text(id, "test-multiple-select") {
        ComponentDispatch::Run(ComponentCommand::TestMultipleSelect)
    } else if same_text(id, "test-button-message") {
        ComponentDispatch::Run(ComponentCommand::TestButtonMessage)
    } else if same_text(id, "test-modal") {
        ComponentDispatch::Run(ComponentCommand::TestModal)
    } else if same_text(id, "pick-games-remove") {
        ComponentDispatch::Run(ComponentCommand::PickGamesRemove)
    } else if same_text(id, "pick-games-add") {
        ComponentDispatch::Run(ComponentCommand::PickGamesAdd)
    } else if same_text(id, "game-remove-reply") {
        ComponentDispatch::Run(ComponentCommand::GameRemoveReply)
    } else if same_text(id, "game-add-reply") {
        ComponentDispatch::Run(ComponentCommand::GameAddReply)
    } else {
        ComponentDispatch::Done(
            MessageComponentResponseBundle {
                message: Some(
                    String::from_str("Message Component response removed or not implemented"),
                ),
                modal: None,
            },
        )
    }
}

/// One choice of a select menu: what it shows and the value it sends back.
#[derive(Debug)]
pub struct SelectOption {
    pub label: String,
    pub value: String,
}

/// A select menu to send, under the prompt "Please select the games you're
/// interested in"; as many options may be picked as there are.
#[derive(Debug)]
pub struct SelectMenu {
    pub custom_id: String,
    pub placeholder: String,
    pub options: Vec<SelectOption>,
}

/// The value of the option that stands in for an empty menu.
pub const PLACEHOLDER_VALUE: u64 = 0;

/// What a game menu came to.
pub enum GameMenu {
    Ready(SelectMenu),
    /// A candidate role is missing from the snapshot: the catalog needs repair.
    Stale,
}

/// Whether `options` offer exactly the roles `ids`, by name and id.
pub open spec fn offers(options: Seq<SelectOption>, ids: Seq<u64>, s: GuildSnapshot) -> bool {
    &&& options.len() == ids.len()
    &&& forall|i: int|
        0 <= i < ids.len() ==> #[trigger] options[i].label@ == names_of(ids, s)[i]
            && options[i].value@ == decimal_text(ids[i] as nat)
}

/// Builds the menu that offers `candidates`; with no candidate it offers the
/// single option `empty_label`, whose value is the placeholder value.
pub(crate) fn game_menu(candidates: &Vec<u64>, snapshot: &GuildSnapshot, reply_id: &str, empty_label: &str) -> (r: GameMenu)
    requires
        snapshot.wf(),
    ensures
        !all_resolved(candidates@, *snapshot) ==> r is Stale,
        all_resolved(candidates@, *snapshot) ==> (r matches GameMenu::Ready(m) && m.custom_id@
            == reply_id@ && m.placeholder@ == "No games selected"@ && (if candidates@.len() == 0 {
            m.options@.len() == 1 && m.options@[0].label@ == empty_label@ && m.options@[0].value@
                == "0"@
        } else {
            offers(m.options@, candidates@, *snapshot)
        })),
{
    let names = match role_names(candidates, snapshot) {
        Some(n) => n,
        None => {
            return GameMenu::Stale;
        },
    };
    let mut options: Vec<SelectOption> = Vec::new();
    let mut i: usize = 0;
    while i < candidates.len()
        invariant
            i <= candidates@.len(),
            names@.len() == candidates@.len(),
            forall|j: int| 0 <= j < candidates@.len() ==> #[trigger] names@[j]@ == names_of(candidates@, *snapshot)[j],
            options@.len() == i,
            forall|j: int|
                0 <= j < i ==> #[trigger] options@[j].label@ == names_of(candidates@, *snapshot)[j]
                    && options@[j].value@ == decimal_text(candidates@[j] as nat),
        decreases candidates@.len() - i,
    {
        let label = names[i].clone();
        let value = decimal(candidates[i]);
        options.push(SelectOption { label, value });
        i = i + 1;
    }
    if options.len() == 0 {
        proof {
            reveal_strlit("0");
        }
        options.push(SelectOption { label: String::from_str(empty_label), value: String::from_str("0") });
    }
    GameMenu::Ready(
        SelectMenu {
            custom_id: String::from_str(reply_id),
            placeholder: String::from_str("No games selected"),
            options,
        },
    )
}

/// The error when the platform did not say who used the game handler `handler`.
pub(crate) fn caller_missing(handler: &str) -> (r: ComponentInteractionError)
    ensures
        r matches ComponentInteractionError::UnresolvedData(c, m) && c@ == handler@ && m@
            == "Interaction caller data missing"@,
{
    ComponentInteractionError::UnresolvedData(
        String::from_str(handler),
        String::from_str("Interaction caller data missing"),
    )
}

/// Reads the catalog from the stored entries.
pub(crate) fn read_catalog(entries: &Vec<String>) -> (r: Result<GameCatalog, ComponentInteractionError>)
    ensures
        r is Ok <==> forall|i: int| 0 <= i < entries@.len() ==> #[trigger] id_of(entries@[i]@) is Ok,
        r matches Ok(c) ==> c.wf() && c@ == crate::catalog::add_all(
            Seq::empty(),
            crate::catalog::ids_of(entries@),
        ),
        r matches Err(e) ==> (e matches ComponentInteractionError::Other(m)
            && crate::catalog::first_parse_failure(entries@, m@)),
{
    match GameCatalog::from_entries(entries) {
        Ok(c) => Ok(c),
        Err(e) => Err(ComponentInteractionError::Other(e.message())),
    }
}

/// Of the picked ids, those that a submitted add menu may still grant: in the
/// catalog now, and not held now.
pub open spec fn add_pick(catalog: Seq<u64>, held: Seq<u64>) -> spec_fn(u64) -> bool {
    |x: u64| catalog.contains(x) && !held.contains(x)
}

/// Of the picked ids, those that a submitted remove menu may still take away:
/// in the catalog and held now, or the placeholder value.
pub open spec fn remove_pick(catalog: Seq<u64>, held: Seq<u64>) -> spec_fn(u64) -> bool {
    |x: u64| x == PLACEHOLDER_VALUE || (catalog.contains(x) && held.contains(x))
}

/// What a submitted game menu comes to.
#[derive(Debug)]
pub enum RoleChange {
    /// No role changes; holds the reply.
    Unchanged(String),
    /// These roles are to be granted or taken away, in one bulk change.
    Apply(Vec<u64>),
}

/// The picked ids that a submission may still change, in the order picked.
pub(crate) fn pick(ids: &Vec<u64>, catalog: &GameCatalog, held: &Vec<u64>, adding: bool) -> (r: Vec<u64>)
    ensures
        adding ==> r@ == ids@.filter(add_pick(catalog@, held@)),
        !adding ==> r@ == ids@.filter(remove_pick(catalog@, held@)),
{
    let ghost p = if adding {
        add_pick(catalog@, held@)
    } else {
        remove_pick(catalog@, held@)
    };
    let mut out: Vec<u64> = Vec::new();
    let mut i: usize = 0;
    while i < ids.len()
        invariant
            i <= ids@.len(),
            p == (if adding {
                add_pick(catalog@, held@)
            } else {
                remove_pick(catalog@, held@)
            }),
            out@ == ids@.take(i as int).filter(p),
        decreases ids@.len() - i,
    {
        let x = ids[i];
        proof {
            assert(ids@.take(i + 1) =~= ids@.take(i as int).push(x));
            ids@.take(i as int).lemma_filter_push(x, p);
        }
        let in_catalog = catalog.contains(x);
        let holds = contains_id(held, x);
        let keep = if adding {
            in_catalog && !holds
        } else {
            x == PLACEHOLDER_VALUE || (in_catalog && holds)
        };
        if keep {
            out.push(x);
        }
        i = i + 1;
    }
    assert(ids@.take(ids@.len() as int) =~= ids@);
    out
}

/// Reads the values of a submitted menu as role ids.
pub(crate) fn picked_ids(values: &Vec<String>) -> (r: Result<Vec<u64>, ComponentInteractionError>)
    ensures
        (forall|i: int| 0 <= i < values@.len() ==> #[trigger] id_of(values@[i]@) is Ok) ==> (r matches Ok(v)
            && v@ == crate::catalog::ids_of(values@)),
        !(forall|i: int| 0 <= i < values@.len() ==> #[trigger] id_of(values@[i]@) is Ok) ==> (r matches Err(
            ComponentInteractionError::Other(m),
        ) && crate::catalog::first_parse_failure(values@, m@)),
{
    match crate::catalog::parse_ids(values) {
        Ok(v) => Ok(v),
        Err(e) => Err(ComponentInteractionError::Other(e.message())),
    }
}

/// The mentions of `ids`, each followed by a space.
pub open spec fn mentions_of(ids: Seq<u64>) -> Seq<char>
    decreases ids.len(),
{
    if ids.len() == 0 {
        Seq::empty()
    } else {
        mentions_of(ids.drop_last()) + role_mention_text(ids.last()) + " "@
    }
}

/// The roles that changed, as the confirmation shows them.
pub fn changed_roles_text(ids: &Vec<u64>) -> (r: String)
    ensures
        r@ == mentions_of(ids@),
{
    let mut out = String::new();
    let mut i: usize = 0;
    while i < ids.len()
        invariant
            i <= ids@.len(),
            out@ == mentions_of(ids@.take(i as int)),
        decreases ids@.len() - i,
    {
        assert(ids@.take(i + 1).drop_last() =~= ids@.take(i as int));
        let m = role_mention(ids[i]);
        out.append(m.as_str());
        out.append(" ");
        i = i + 1;
    }
    assert(ids@.take(ids@.len() as int) =~= ids@);
    out
}

/// The error that a repair started from a game menu ends with, once the
/// evicted ids are gone from the store: a transient cache error when nothing
/// was evicted, else the news that the catalog was repaired.
pub fn fix_report(evicted: &Vec<u64>) -> (r: ComponentInteractionError)
    ensures
        evicted@.len() == 0 ==> (r matches ComponentInteractionError::CacheError(m) && m@
            == crate::application_commands::list_games::cache_behind()),
        evicted@.len() > 0 ==> (r matches ComponentInteractionError::Other(m) && m@
            == "One or multiple roles in the games list where deleted. This has been fixed, dismiss this message and try again!"@),
{
    if evicted.len() == 0 {
        ComponentInteractionError::CacheError(
            String::from_str(
                "One of more roles seem to be missing from the cache, please wait a few minutes and try again",
            ),
        )
    } else {
        ComponentInteractionError::Other(
            String::from_str(
                "One or multiple roles in the games list where deleted. This has been fixed, dismiss this message and try again!",
            ),
        )
    }
}

} // verus!
