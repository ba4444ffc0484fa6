//! The system prompt: the instructions and the catalog of actions that open
//! every conversation with the model.

use vstd::prelude::*;
use vstd::string::StringExecFns;
use crate::actions::{Sorry, UpdateGame};
use crate::json::{json_quoted, quote};

verus! {

/// The instructions up to the catalog of actions.
pub const OPENING: &'static str =
    "Always respond with valid JSON. You have access to the following possible actions: ";

/// The instructions after the catalog of actions. They say, among other
/// things, that `value` is JSON written out as an escaped string.
pub const CLOSING: &'static str =
    ". If you are updating the game board, YOU MUST FOLLOW THE JSON SCHEMA. Every point \
    requires an x and y value, and every hex requires a hex value. This is how you make \
    the game possible to play - you update the board after the user takes an action, and \
    you provide the user with the next state of the board. You are a game master and you \
    get to decide on a game to play, the rules, and the outcome. You facilitate every \
    interaction by updating a 20x20 square grid. You can make any rules you want, like \
    snake, or breakout or anything else, as long as you follow the JSON schema to \
    represent the board. Do not make up an ascii representation of the board or choose a \
    game that can't be played with keyboard. Always start the player somewhere. There must \
    be one non-white square when the game starts! It is critical that when a new game is \
    being started you provide detailed instructions on how, the game is played. A new game \
    can start either because it's the first message, or because the game has ended, or \
    you, or the player wants to start over, The user will respond to you with a movement \
    action. Always respond with valid JSON. Only respond with valid actions. If the user \
    is attempting a movement action, update the board, and appropriately fill in the \
    values as outlined. Always fill in `action` with the appropriate string and `value` \
    with the appropriate stringified and escaped JSON. It is critical the JSON is escaped. \
    Otherwise, choose the Sorry action. Any other request should use the Sorry action and \
    place \"sorry\" in its `error`.";

/// The JSON schema of the `UpdateGame` payload: its members, which of them
/// may be left out, and the coordinates from 0 up to, not including, 20.
pub const UPDATE_GAME_SCHEMA: &'static str =
    "{\"type\":\"object\",\"properties\":{\"Point\":{\"type\":\"object\",\"properties\":{\"x\":{\"type\":\"integer\",\"minimum\":0,\"maximum\":20,\"exclusiveMaximum\":true},\"y\":{\"type\":\"integer\",\"minimum\":0,\"maximum\":20,\"exclusiveMaximum\":true}},\"required\":[\"x\",\"y\"]},\"PointHex\":{\"type\":\"object\",\"properties\":{\"hex\":{\"type\":\"string\"},\"point\":{\"$ref\":\"#/properties/Point\"}},\"required\":[\"hex\",\"point\"]},\"UpdateGame\":{\"type\":\"object\",\"properties\":{\"clear_grid\":{\"type\":[\"boolean\",\"null\"]},\"update_points\":{\"type\":\"array\",\"items\":{\"$ref\":\"#/properties/PointHex\"}},\"game_end\":{\"type\":[\"boolean\",\"null\"]},\"message\":{\"type\":[\"string\",\"null\"]}},\"required\":[\"update_points\"]}}}";

/// How the catalog shows the `Sorry` payload: an object whose `error` holds
/// the name of its type.
pub open spec fn sorry_definition() -> Seq<char> {
    "{\"error\":"@ + json_quoted("String"@) + "}"@
}

/// One entry of the catalog: an envelope whose `value` describes the payload
/// of `action`. Like every `value`, the description is JSON inside a string.
pub open spec fn catalog_entry(action: Seq<char>, definition: Seq<char>) -> Seq<char> {
    "{\"action\":"@ + json_quoted(action) + ",\"value\":"@ + json_quoted(definition) + "}"@
}

/// The catalog: a JSON array with one entry for each action, `UpdateGame`
/// first.
pub open spec fn catalog() -> Seq<char> {
    "["@ + catalog_entry("UpdateGame"@, UPDATE_GAME_SCHEMA@) + ","@ + catalog_entry(
        "Sorry"@,
        sorry_definition(),
    ) + "]"@
}

/// The system prompt: the instructions with the catalog in their middle.
pub open spec fn system_prompt() -> Seq<char> {
    OPENING@ + catalog() + CLOSING@
}

impl UpdateGame {
    /// The description of this payload in the catalog.
    pub fn string_definition() -> (r: String)
        ensures
            r@ == UPDATE_GAME_SCHEMA@,
    {
        String::from_str(UPDATE_GAME_SCHEMA)
    }
}

impl Sorry {
    /// The description of this payload in the catalog.
    pub fn string_definition() -> (r: String)
        ensures
            r@ == sorry_definition(),
    {
        let mut text = String::from_str("{\"error\":");
        text.append(quote("String").as_str());
        text.append("}");
        text
    }
}

/// Writes one entry of the catalog.
fn entry(action: &str, definition: &str) -> (r: String)
    ensures
        r@ == catalog_entry(action@, definition@),
{
    let mut text = String::from_str("{\"action\":");
    text.append(quote(action).as_str());
    text.append(",\"value\":");
    text.append(quote(definition).as_str());
    text.append("}");
    text
}

/// Builds the system prompt. It takes nothing and reads nothing, so every
/// call returns the same text.
pub fn build_system_prompt() -> (r: String)
    ensures
        r@ == system_prompt(),
{
    let mut actions = String::from_str("[");
    actions.append(entry("UpdateGame", UpdateGame::string_definition().as_str()).as_str());
    actions.append(",");
    actions.append(entry("Sorry", Sorry::string_definition().as_str()).as_str());
    actions.append("]");
    let mut text = String::from_str(OPENING);
    text.append(actions.as_str());
    text.append(CLOSING);
    text
}

/// Two prompts that [`build_system_prompt`] has built hold the same text.
pub proof fn system_prompt_is_always_the_same(first: String, second: String)
    requires
        first@ == system_prompt(),
        second@ == system_prompt(),
    ensures
        first@ == second@,
{
}

} // verus!
