//! The action protocol: from the text that the model sends to typed scene
//! updates.
//!
//! The model answers with an envelope, `{"action": tag, "value": text}`, whose
//! `value` is itself a JSON document written out as a string. [`parse`] reads
//! the envelope, [`decode`] reads the payload inside it. Whatever does not fit
//! the schema is reported as a [`ProtocolError`] and gives no update.

use vstd::prelude::*;
use crate::color::{hex_color, resolved_color, sentinel, Color};
use crate::json::{array_view, items_view, parse_json, parsed_json, same_text, Json, JsonView};

verus! {

/// The side of the square grid: coordinates run from 0 up to, not including,
/// this number.
pub const GRID_SIDE: u8 = 20;

/// The actions that the model may choose from.
#[derive(Clone, Copy, Debug, PartialEq, Eq, Structural)]
pub enum ActionTypes {
    UpdateGame,
    Sorry,
}

/// Why a reply of the model gave no scene update.
#[derive(Clone, Copy, Debug, PartialEq, Eq, Structural)]
pub enum ProtocolError {
    /// The reply is not a JSON object with the strings `action` and `value`.
    MalformedEnvelope,
    /// The `action` tag names no action of [`ActionTypes`].
    UnknownAction,
    /// The `value` is not a JSON document of the shape that the action asks
    /// for, or a point of it lies off the grid.
    PayloadDecodeError,
}

/// A cell of the grid.
#[derive(Clone, Copy, Debug, PartialEq, Eq, Structural)]
pub struct Point {
    pub x: u8,
    pub y: u8,
}

impl Point {
    /// Both coordinates lie on the grid.
    pub open spec fn on_grid(self) -> bool {
        self.x < GRID_SIDE && self.y < GRID_SIDE
    }
}

/// A cell and its color as the wire has it, in hexadecimal notation.
#[derive(Clone, Debug, PartialEq, Eq)]
pub struct PointHex {
    pub hex: String,
    pub point: Point,
}

/// What a [`PointHex`] holds.
pub ghost struct PointHexView {
    pub hex: Seq<char>,
    pub point: Point,
}

impl View for PointHex {
    type V = PointHexView;

    open spec fn view(&self) -> PointHexView {
        PointHexView { hex: self.hex@, point: self.point }
    }
}

/// A cell and the color it takes.
#[derive(Clone, Copy, Debug, PartialEq, Eq, Structural)]
pub struct PointColor {
    pub color: Color,
    pub point: Point,
}

/// The color of a wire point resolved: the same cell, with the color that its
/// `hex` denotes, or the sentinel color where it denotes none.
pub open spec fn colored(point: PointHexView) -> PointColor {
    PointColor { color: resolved_color(point.hex), point: point.point }
}

impl PointHex {
    /// Resolves the color. A `hex` that cannot be read gives the sentinel
    /// color; the cell stays as it is.
    pub fn resolve(&self) -> (r: PointColor)
        ensures
            r == colored(self@),
    {
        PointColor { color: Color::resolve(self.hex.as_str()), point: self.point }
    }
}

/// An envelope whose tag has been recognized; the payload is still text.
#[derive(Clone, Debug, PartialEq, Eq)]
pub struct ActionEnvelope {
    pub action: ActionTypes,
    pub value: String,
}

/// What an [`ActionEnvelope`] holds.
pub ghost struct EnvelopeView {
    pub action: ActionTypes,
    pub value: Seq<char>,
}

impl View for ActionEnvelope {
    type V = EnvelopeView;

    open spec fn view(&self) -> EnvelopeView {
        EnvelopeView { action: self.action, value: self.value@ }
    }
}

/// An event for the game state: the only thing that leaves this layer.
#[derive(Clone, Debug, PartialEq, Eq)]
pub enum SceneUpdate {
    UpdateGame {
        clear_grid: Option<bool>,
        update_points: Vec<PointColor>,
        game_end: Option<bool>,
        message: Option<String>,
    },
    Sorry { error: String },
}

/// What a [`SceneUpdate`] holds.
pub ghost enum SceneUpdateView {
    UpdateGame {
        clear_grid: Option<bool>,
        update_points: Seq<PointColor>,
        game_end: Option<bool>,
        message: Option<Seq<char>>,
    },
    Sorry { error: Seq<char> },
}

/// What an optional string holds.
pub open spec fn text_view(text: Option<String>) -> Option<Seq<char>> {
    match text {
        Some(t) => Some(t@),
        None => None,
    }
}

impl View for SceneUpdate {
    type V = SceneUpdateView;

    open spec fn view(&self) -> SceneUpdateView {
        match *self {
            SceneUpdate::UpdateGame { clear_grid, update_points, game_end, message } => SceneUpdateView::UpdateGame {
                clear_grid,
                update_points: update_points@,
                game_end,
                message: text_view(message),
            },
            SceneUpdate::Sorry { error } => SceneUpdateView::Sorry { error: error@ },
        }
    }
}

/// The action that a tag names.
pub open spec fn action_kind(tag: Seq<char>) -> Option<ActionTypes> {
    if tag == "UpdateGame"@ {
        Some(ActionTypes::UpdateGame)
    } else if tag == "Sorry"@ {
        Some(ActionTypes::Sorry)
    } else {
        None
    }
}

/// The envelope that a JSON document is.
///
/// It is an object with the members `action` and `value`, both strings; other
/// members are ignored. A tag outside [`ActionTypes`] is an unknown action;
/// every other departure is a malformed envelope.
pub open spec fn envelope_of(tree: JsonView) -> Result<EnvelopeView, ProtocolError> {
    match (tree.field("action"@), tree.field("value"@)) {
        (Some(JsonView::Text(tag)), Some(JsonView::Text(value))) => match action_kind(tag) {
            Some(action) => Ok(EnvelopeView { action, value }),
            None => Err(ProtocolError::UnknownAction),
        },
        _ => Err(ProtocolError::MalformedEnvelope),
    }
}

/// The envelope that a reply is: that of the JSON document it spells, and a
/// malformed envelope where it spells none.
pub open spec fn parsed_envelope(raw: Seq<char>) -> Result<EnvelopeView, ProtocolError> {
    match parsed_json(raw) {
        Some(tree) => envelope_of(tree),
        None => Err(ProtocolError::MalformedEnvelope),
    }
}

/// What the outcome of [`parse`] holds.
pub open spec fn envelope_outcome(r: Result<ActionEnvelope, ProtocolError>) -> Result<EnvelopeView, ProtocolError> {
    match r {
        Ok(envelope) => Ok(envelope@),
        Err(e) => Err(e),
    }
}

/// Recognizes an action tag.
pub fn action_of_tag(tag: &String) -> (r: Option<ActionTypes>)
    ensures
        r == action_kind(tag@),
{
    if same_text(tag, "UpdateGame") {
        Some(ActionTypes::UpdateGame)
    } else if same_text(tag, "Sorry") {
        Some(ActionTypes::Sorry)
    } else {
        None
    }
}

/// Reads the envelope out of a JSON document.
pub fn envelope_from_json(tree: &Json) -> (r: Result<ActionEnvelope, ProtocolError>)
    ensures
        envelope_outcome(r) == envelope_of(tree@),
{
    match (tree.get("action"), tree.get("value")) {
        (Some(Json::Text(tag)), Some(Json::Text(value))) => match action_of_tag(tag) {
            Some(action) => Ok(ActionEnvelope { action, value: value.clone() }),
            None => Err(ProtocolError::UnknownAction),
        },
        _ => Err(ProtocolError::MalformedEnvelope),
    }
}

/// Reads the envelope of a reply.
///
/// Fails with `MalformedEnvelope` where `raw` is no JSON document or not of
/// the envelope's shape, and with `UnknownAction` where the shape is right
/// and the tag is not recognized.
pub fn parse(raw: &str) -> (r: Result<ActionEnvelope, ProtocolError>)
    ensures
        envelope_outcome(r) == parsed_envelope(raw@),
{
    match parse_json(raw) {
        Some(tree) => envelope_from_json(&tree),
        None => Err(ProtocolError::MalformedEnvelope),
    }
}

/// The payload of an `UpdateGame` action as the wire has it: colors are still
/// in hexadecimal notation.
#[derive(Clone, Debug, PartialEq, Eq)]
pub struct UpdateGame {
    pub clear_grid: Option<bool>,
    pub update_points: Vec<PointHex>,
    pub game_end: Option<bool>,
    pub message: Option<String>,
}

/// What an [`UpdateGame`] holds.
pub ghost struct UpdateGameView {
    pub clear_grid: Option<bool>,
    pub update_points: Seq<PointHexView>,
    pub game_end: Option<bool>,
    pub message: Option<Seq<char>>,
}

/// What a list of wire points holds.
pub open spec fn points_view(points: Seq<PointHex>) -> Seq<PointHexView> {
    Seq::new(points.len(), |i: int| points[i]@)
}

impl View for UpdateGame {
    type V = UpdateGameView;

    open spec fn view(&self) -> UpdateGameView {
        UpdateGameView {
            clear_grid: self.clear_grid,
            update_points: points_view(self.update_points@),
            game_end: self.game_end,
            message: text_view(self.message),
        }
    }
}

/// The payload of a `Sorry` action.
#[derive(Clone, Debug, PartialEq, Eq)]
pub struct Sorry {
    pub error: String,
}

/// An optional boolean member: absent and `null` both mean that it is not
/// given; anything but a boolean or `null` does not fit.
pub open spec fn optional_flag(tree: JsonView, key: Seq<char>) -> Result<Option<bool>, ProtocolError> {
    match tree.field(key) {
        None => Ok(None),
        Some(JsonView::Null) => Ok(None),
        Some(JsonView::Bool(b)) => Ok(Some(b)),
        Some(_) => Err(ProtocolError::PayloadDecodeError),
    }
}

/// An optional string member, read as [`optional_flag`] reads a boolean.
pub open spec fn optional_text(tree: JsonView, key: Seq<char>) -> Result<Option<Seq<char>>, ProtocolError> {
    match tree.field(key) {
        None => Ok(None),
        Some(JsonView::Null) => Ok(None),
        Some(JsonView::Text(t)) => Ok(Some(t)),
        Some(_) => Err(ProtocolError::PayloadDecodeError),
    }
}

/// A coordinate member: a whole number from 0 up to, not including,
/// [`GRID_SIDE`].
pub open spec fn coordinate(tree: JsonView, key: Seq<char>) -> Option<u8> {
    match tree.field(key) {
        Some(JsonView::Number(Some(n))) => if n < GRID_SIDE {
            Some(n as u8)
        } else {
            None
        },
        _ => None,
    }
}

/// The cell that a JSON document is: an object with the coordinates `x` and
/// `y`.
pub open spec fn point_of(tree: JsonView) -> Option<Point> {
    match (coordinate(tree, "x"@), coordinate(tree, "y"@)) {
        (Some(x), Some(y)) => Some(Point { x, y }),
        _ => None,
    }
}

/// The wire point that a JSON document is: an object with the string `hex`
/// and the cell `point`. The notation of `hex` is not looked at here.
pub open spec fn point_hex_of(tree: JsonView) -> Option<PointHexView> {
    match (tree.field("hex"@), tree.field("point"@)) {
        (Some(JsonView::Text(hex)), Some(cell)) => match point_of(cell) {
            Some(point) => Some(PointHexView { hex, point }),
            None => None,
        },
        _ => None,
    }
}

/// Every item is a wire point.
pub open spec fn all_points(items: Seq<JsonView>) -> bool {
    forall|i: int| 0 <= i < items.len() ==> (#[trigger] point_hex_of(items[i])) is Some
}

/// The wire points that the items are, in their order.
pub open spec fn wire_points(items: Seq<JsonView>) -> Seq<PointHexView> {
    Seq::new(items.len(), |i: int| point_hex_of(items[i]).unwrap())
}

/// The `UpdateGame` payload that a JSON document is.
///
/// `update_points` is required and is an array of wire points; `clear_grid`,
/// `game_end` and `message` are optional. One member that does not fit, or
/// one item that is no wire point, and the document is no payload at all.
pub open spec fn update_game_of(tree: JsonView) -> Option<UpdateGameView> {
    match (
        optional_flag(tree, "clear_grid"@),
        tree.field("update_points"@),
        optional_flag(tree, "game_end"@),
        optional_text(tree, "message"@),
    ) {
        (Ok(clear_grid), Some(JsonView::Array(items)), Ok(game_end), Ok(message)) => if all_points(items) {
            Some(UpdateGameView { clear_grid, update_points: wire_points(items), game_end, message })
        } else {
            None
        },
        _ => None,
    }
}

/// The `Sorry` payload that a JSON document is: an object with the string
/// `error`.
pub open spec fn sorry_of(tree: JsonView) -> Option<Seq<char>> {
    match tree.field("error"@) {
        Some(JsonView::Text(error)) => Some(error),
        _ => None,
    }
}

/// The scene update that an `UpdateGame` payload asks for: the same fields,
/// each point with its color resolved.
pub open spec fn scene_of_update(payload: UpdateGameView) -> SceneUpdateView {
    SceneUpdateView::UpdateGame {
        clear_grid: payload.clear_grid,
        update_points: Seq::new(payload.update_points.len(), |i: int| colored(payload.update_points[i])),
        game_end: payload.game_end,
        message: payload.message,
    }
}

/// The scene update that the payload `tree` of an action gives.
pub open spec fn payload_update(action: ActionTypes, tree: JsonView) -> Result<SceneUpdateView, ProtocolError> {
    match action {
        ActionTypes::UpdateGame => match update_game_of(tree) {
            Some(payload) => Ok(scene_of_update(payload)),
            None => Err(ProtocolError::PayloadDecodeError),
        },
        ActionTypes::Sorry => match sorry_of(tree) {
            Some(error) => Ok(SceneUpdateView::Sorry { error }),
            None => Err(ProtocolError::PayloadDecodeError),
        },
    }
}

/// The scene update that an envelope gives: that of the JSON document that
/// its `value` spells, and a payload error where it spells none.
pub open spec fn decoded(envelope: EnvelopeView) -> Result<SceneUpdateView, ProtocolError> {
    match parsed_json(envelope.value) {
        Some(tree) => payload_update(envelope.action, tree),
        None => Err(ProtocolError::PayloadDecodeError),
    }
}

/// The scene update that a reply gives.
pub open spec fn handled(raw: Seq<char>) -> Result<SceneUpdateView, ProtocolError> {
    match parsed_envelope(raw) {
        Ok(envelope) => decoded(envelope),
        Err(e) => Err(e),
    }
}

/// What the outcome of [`decode`] holds.
pub open spec fn update_outcome(r: Result<SceneUpdate, ProtocolError>) -> Result<SceneUpdateView, ProtocolError> {
    match r {
        Ok(update) => Ok(update@),
        Err(e) => Err(e),
    }
}

/// Reads an optional boolean member.
pub fn read_flag(tree: &Json, key: &str) -> (r: Result<Option<bool>, ProtocolError>)
    ensures
        r == optional_flag(tree@, key@),
{
    match tree.get(key) {
        None => Ok(None),
        Some(Json::Null) => Ok(None),
        Some(Json::Bool(b)) => Ok(Some(*b)),
        Some(_) => Err(ProtocolError::PayloadDecodeError),
    }
}

/// Reads an optional string member.
pub fn read_text(tree: &Json, key: &str) -> (r: Result<Option<String>, ProtocolError>)
    ensures
        match r {
            Ok(text) => optional_text(tree@, key@) == Ok::<Option<Seq<char>>, ProtocolError>(text_view(text)),
            Err(e) => optional_text(tree@, key@) == Err::<Option<Seq<char>>, ProtocolError>(e),
        },
{
    match tree.get(key) {
        None => Ok(None),
        Some(Json::Null) => Ok(None),
        Some(Json::Text(t)) => Ok(Some(t.clone())),
        Some(_) => Err(ProtocolError::PayloadDecodeError),
    }
}

/// Reads a coordinate member.
pub fn read_coordinate(tree: &Json, key: &str) -> (r: Option<u8>)
    ensures
        r == coordinate(tree@, key@),
        r matches Some(c) ==> c < GRID_SIDE,
{
    match tree.get(key) {
        Some(Json::Number(Some(n))) => if *n < GRID_SIDE as u64 {
            Some(*n as u8)
        } else {
            None
        },
        _ => None,
    }
}

impl Point {
    /// Reads a cell; one that lies off the grid is none.
    pub fn from_json(tree: &Json) -> (r: Option<Point>)
        ensures
            r == point_of(tree@),
            r matches Some(p) ==> p.on_grid(),
    {
        match (read_coordinate(tree, "x"), read_coordinate(tree, "y")) {
            (Some(x), Some(y)) => Some(Point { x, y }),
            _ => None,
        }
    }
}

impl PointHex {
    /// Reads a wire point.
    pub fn from_json(tree: &Json) -> (r: Option<PointHex>)
        ensures
            match r {
                Some(p) => point_hex_of(tree@) == Some(p@) && p.point.on_grid(),
                None => point_hex_of(tree@) is None,
            },
    {
        match (tree.get("hex"), tree.get("point")) {
            (Some(Json::Text(hex)), Some(cell)) => match Point::from_json(cell) {
                Some(point) => Some(PointHex { hex: hex.clone(), point }),
                None => None,
            },
            _ => None,
        }
    }
}

/// Reads the items of `update_points`: all of them, or none where one item is
/// no wire point.
pub fn read_points(items: &Vec<Json>) -> (r: Option<Vec<PointHex>>)
    ensures
        match r {
            Some(points) => all_points(items_view(items@)) && points_view(points@) == wire_points(items_view(items@)),
            None => !all_points(items_view(items@)),
        },
{
    let mut points: Vec<PointHex> = Vec::new();
    let mut i: usize = 0;
    while i < items.len()
        invariant
            i <= items.len(),
            points.len() == i,
            forall|k: int| 0 <= k < i ==> (#[trigger] point_hex_of(items_view(items@)[k])) == Some(points@[k]@),
        decreases items.len() - i,
    {
        match PointHex::from_json(&items[i]) {
            Some(point) => {
                points.push(point);
            },
            None => {
                assert(point_hex_of(items_view(items@)[i as int]) is None);
                return None;
            },
        }
        i += 1;
    }
    assert(points_view(points@) =~= wire_points(items_view(items@)));
    Some(points)
}

impl UpdateGame {
    /// Reads an `UpdateGame` payload.
    pub fn from_json(tree: &Json) -> (r: Option<UpdateGame>)
        ensures
            match r {
                Some(payload) => update_game_of(tree@) == Some(payload@),
                None => update_game_of(tree@) is None,
            },
    {
        let clear_grid = match read_flag(tree, "clear_grid") {
            Ok(flag) => flag,
            Err(_) => {
                return None;
            },
        };
        let update_points = match tree.get("update_points") {
            Some(Json::Array(items)) => {
                proof {
                    array_view(*items);
                }
                match read_points(items) {
                    Some(points) => points,
                    None => {
                        return None;
                    },
                }
            },
            _ => {
                return None;
            },
        };
        let game_end = match read_flag(tree, "game_end") {
            Ok(flag) => flag,
            Err(_) => {
                return None;
            },
        };
        let message = match read_text(tree, "message") {
            Ok(text) => text,
            Err(_) => {
                return None;
            },
        };
        Some(UpdateGame { clear_grid, update_points, game_end, message })
    }

    /// Turns the payload into the scene update it asks for, resolving the
    /// color of each point on its own.
    pub fn into_scene(self) -> (r: SceneUpdate)
        ensures
            r@ == scene_of_update(self@),
    {
        let mut colors: Vec<PointColor> = Vec::new();
        let mut i: usize = 0;
        while i < self.update_points.len()
            invariant
                i <= self.update_points.len(),
                colors.len() == i,
                forall|k: int| 0 <= k < i ==> (#[trigger] colors@[k]) == colored(self.update_points@[k]@),
            decreases self.update_points.len() - i,
        {
            colors.push(self.update_points[i].resolve());
            i += 1;
        }
        let r = SceneUpdate::UpdateGame {
            clear_grid: self.clear_grid,
            update_points: colors,
            game_end: self.game_end,
            message: self.message,
        };
        assert(r@->update_points =~= scene_of_update(self@)->update_points);
        r
    }
}

impl Sorry {
    /// Reads a `Sorry` payload.
    pub fn from_json(tree: &Json) -> (r: Option<Sorry>)
        ensures
            match r {
                Some(payload) => sorry_of(tree@) == Some(payload.error@),
                None => sorry_of(tree@) is None,
            },
    {
        match tree.get("error") {
            Some(Json::Text(error)) => Some(Sorry { error: error.clone() }),
            _ => None,
        }
    }
}

/// Reads the payload of an action from its JSON document.
///
/// A document that does not fit the action's schema gives
/// `PayloadDecodeError` and nothing else: no update is made from a part of it.
pub fn decode_payload(action: ActionTypes, tree: &Json) -> (r: Result<SceneUpdate, ProtocolError>)
    ensures
        update_outcome(r) == payload_update(action, tree@),
{
    match action {
        ActionTypes::UpdateGame => match UpdateGame::from_json(tree) {
            Some(payload) => Ok(payload.into_scene()),
            None => Err(ProtocolError::PayloadDecodeError),
        },
        ActionTypes::Sorry => match Sorry::from_json(tree) {
            Some(payload) => Ok(SceneUpdate::Sorry { error: payload.error }),
            None => Err(ProtocolError::PayloadDecodeError),
        },
    }
}

/// Decodes the payload that an envelope carries.
pub fn decode(envelope: &ActionEnvelope) -> (r: Result<SceneUpdate, ProtocolError>)
    ensures
        update_outcome(r) == decoded(envelope@),
{
    match parse_json(envelope.value.as_str()) {
        Some(tree) => decode_payload(envelope.action, &tree),
        None => Err(ProtocolError::PayloadDecodeError),
    }
}

/// Turns a reply of the model into the scene update it asks for, or into the
/// reason why it gives none.
pub fn handle_request(request_json: &str) -> (r: Result<SceneUpdate, ProtocolError>)
    ensures
        update_outcome(r) == handled(request_json@),
{
    match parse(request_json) {
        Ok(envelope) => decode(&envelope),
        Err(e) => Err(e),
    }
}

/// A reply whose envelope is tagged `UpdateGame` and whose payload fits the
/// schema gives an `UpdateGame` update that equals the payload member for
/// member: each flag and the message are those of the JSON document, absent
/// where the document has none or `null`, and the points are those of
/// `update_points`, one for one and in order, each on the cell that the
/// document names and in the color that its `hex` resolves to.
pub proof fn update_game_decodes_field_for_field(
    raw: Seq<char>,
    envelope: JsonView,
    value: Seq<char>,
    payload: JsonView,
    items: Seq<JsonView>,
)
    requires
        parsed_json(raw) == Some(envelope),
        envelope_of(envelope) == Ok::<EnvelopeView, ProtocolError>(
            EnvelopeView { action: ActionTypes::UpdateGame, value },
        ),
        parsed_json(value) == Some(payload),
        update_game_of(payload) is Some,
        payload.field("update_points"@) == Some(JsonView::Array(items)),
    ensures
        handled(raw) matches Ok(SceneUpdateView::UpdateGame { clear_grid, update_points, game_end, message }) && {
            &&& Ok::<Option<bool>, ProtocolError>(clear_grid) == optional_flag(payload, "clear_grid"@)
            &&& Ok::<Option<bool>, ProtocolError>(game_end) == optional_flag(payload, "game_end"@)
            &&& Ok::<Option<Seq<char>>, ProtocolError>(message) == optional_text(payload, "message"@)
            &&& update_points.len() == items.len()
            &&& forall|i: int|
                0 <= i < items.len() ==> {
                    let point = #[trigger] update_points[i];
                    let cell = items[i].field("point"@).unwrap();
                    &&& items[i].field("hex"@) matches Some(JsonView::Text(hex)) && point.color == resolved_color(hex)
                    &&& cell.field("x"@) == Some(JsonView::Number(Some(point.point.x as u64)))
                    &&& cell.field("y"@) == Some(JsonView::Number(Some(point.point.y as u64)))
                }
        },
{
    let fields = update_game_of(payload).unwrap();
    assert(handled(raw) == Ok::<SceneUpdateView, ProtocolError>(scene_of_update(fields)));
    assert forall|i: int| 0 <= i < items.len() implies {
        let point = #[trigger] scene_of_update(fields)->update_points[i];
        let cell = items[i].field("point"@).unwrap();
        &&& items[i].field("hex"@) matches Some(JsonView::Text(hex)) && point.color == resolved_color(hex)
        &&& cell.field("x"@) == Some(JsonView::Number(Some(point.point.x as u64)))
        &&& cell.field("y"@) == Some(JsonView::Number(Some(point.point.y as u64)))
    } by {
        assert(point_hex_of(items[i]) is Some);
    }
}

/// A reply of the envelope's shape whose tag names no action gives no update:
/// reading the envelope reports `UnknownAction`, and so does handling the
/// reply, whatever the payload is.
pub proof fn unknown_action_gives_no_update(raw: Seq<char>, envelope: JsonView, tag: Seq<char>, value: Seq<char>)
    requires
        parsed_json(raw) == Some(envelope),
        envelope.field("action"@) == Some(JsonView::Text(tag)),
        envelope.field("value"@) == Some(JsonView::Text(value)),
        action_kind(tag) is None,
    ensures
        parsed_envelope(raw) == Err::<EnvelopeView, ProtocolError>(ProtocolError::UnknownAction),
        handled(raw) == Err::<SceneUpdateView, ProtocolError>(ProtocolError::UnknownAction),
{
}

/// Every point of a decoded update lies on the grid.
pub proof fn decoded_points_lie_on_grid(action: ActionTypes, tree: JsonView)
    ensures
        payload_update(action, tree) matches Ok(SceneUpdateView::UpdateGame { update_points, .. })
            ==> forall|i: int| 0 <= i < update_points.len() ==> (#[trigger] update_points[i]).point.on_grid(),
{
    if let Ok(SceneUpdateView::UpdateGame { update_points, .. }) = payload_update(action, tree) {
        let items = tree.field("update_points"@)->0->Array_0;
        assert forall|i: int| 0 <= i < update_points.len() implies (#[trigger] update_points[i]).point.on_grid() by {
            assert(point_hex_of(items[i]) is Some);
        }
    }
}

/// One point off the grid rejects the whole action: where a coordinate of an
/// item of `update_points` is a whole number of [`GRID_SIDE`] or more, the
/// payload gives `PayloadDecodeError` and no update.
pub proof fn point_off_grid_rejects_action(tree: JsonView, items: Seq<JsonView>, i: int, cell: JsonView, n: u64)
    requires
        tree.field("update_points"@) == Some(JsonView::Array(items)),
        0 <= i < items.len(),
        items[i].field("point"@) == Some(cell),
        cell.field("x"@) == Some(JsonView::Number(Some(n))) || cell.field("y"@) == Some(JsonView::Number(Some(n))),
        n >= GRID_SIDE,
    ensures
        payload_update(ActionTypes::UpdateGame, tree) == Err::<SceneUpdateView, ProtocolError>(
            ProtocolError::PayloadDecodeError,
        ),
{
    assert(point_of(cell) is None);
    assert(point_hex_of(items[i]) is None);
}

/// A `hex` that cannot be read costs its own point its color and nothing
/// else: that point takes the sentinel color on its own cell, and every other
/// point of the batch takes the color that its own `hex` resolves to.
pub proof fn unreadable_hex_falls_back_alone(payload: UpdateGameView, i: int)
    requires
        0 <= i < payload.update_points.len(),
        hex_color(payload.update_points[i].hex) is None,
    ensures
        scene_of_update(payload) matches SceneUpdateView::UpdateGame { update_points, .. } && {
            &&& update_points.len() == payload.update_points.len()
            &&& update_points[i] == PointColor { color: sentinel(), point: payload.update_points[i].point }
            &&& forall|j: int|
                0 <= j < update_points.len() && j != i ==> {
                    &&& (#[trigger] update_points[j]).point == payload.update_points[j].point
                    &&& update_points[j].color == resolved_color(payload.update_points[j].hex)
                    &&& hex_color(payload.update_points[j].hex) matches Some(color) ==> update_points[j].color == color
                }
        },
{
}

} // verus!
