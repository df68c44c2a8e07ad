//! Bodies of the requests and responses of the HTTP interface.

use super::api_types::{Instruction, InstructionView};
use super::id_types::{InstructionSeq, MachineName};
use super::wire::{
    decoded, decoded_plain, instruction_to_json, json_of_instruction, optional_str_of,
    required_str_of, DecodeError, DecodeErrorView,
};
use crate::json::{
    json_members, json_model, json_print, map_insert, map_new, parse_value, print_value,
    value_as_array, value_as_bool, value_as_i64, value_as_str, value_from_bool, value_from_str,
    value_from_u64, value_get, value_is_null, value_object, JsonValue,
};
use vstd::prelude::*;

verus! {

/// The answer to the question who the token belongs to.
#[derive(Debug, Clone, PartialEq)]
pub struct WhoamiResponse {
    pub account: String,
}

/// The answer to a request for a new machine.
#[derive(Debug, Clone, PartialEq)]
pub struct CreateMachineResponse {
    pub machine_name: MachineName,
}

/// A tag of a machine: a key and its value.
#[derive(Debug, Clone, PartialEq)]
pub struct Tag {
    pub key: String,
    pub value: String,
}

/// A request for a new machine: its tags, and its memory in megabytes where
/// the default is not wanted. Of two tags with one key the later one counts.
#[derive(Debug, Clone, PartialEq)]
pub struct CreateMachineRequest {
    pub tags: Vec<Tag>,
    pub memory_mb: Option<u32>,
}

/// A request for the list of the machines that bear the given tags.
#[derive(Debug, Clone, PartialEq)]
pub struct ListMachinesRequest {
    pub tags: Vec<Tag>,
}

/// A machine as the service lists it. The times are kept as the service wrote
/// them.
#[derive(Debug, Clone, PartialEq)]
pub struct ApiMachine {
    pub name: MachineName,
    pub created_at: String,
    pub running: bool,
    pub has_pending_instruction: bool,
    pub expires_at: Option<String>,
}

/// An `ApiMachine` as a mathematical value.
pub struct ApiMachineView {
    pub name: Seq<char>,
    pub created_at: Seq<char>,
    pub running: bool,
    pub has_pending_instruction: bool,
    pub expires_at: Option<Seq<char>>,
}

impl View for ApiMachine {
    type V = ApiMachineView;

    open spec fn view(&self) -> ApiMachineView {
        ApiMachineView {
            name: self.name@,
            created_at: self.created_at@,
            running: self.running,
            has_pending_instruction: self.has_pending_instruction,
            expires_at: match self.expires_at {
                Some(time) => Some(time@),
                None => None,
            },
        }
    }
}

/// The list of the machines of an account.
#[derive(Debug, Clone, PartialEq)]
pub struct ListMachinesResponse {
    pub machines: Vec<ApiMachine>,
}

/// A request to run an instruction on a machine.
#[derive(Debug, Clone, PartialEq)]
pub struct ApiExecRequest {
    pub instruction: Instruction,
    /// Whether the instruction takes the place of one that is pending or
    /// running.
    pub interrupt: bool,
}

/// The answer to a request to run an instruction: the number of the
/// instruction where the service accepted it, and whether it was interrupted.
#[derive(Debug, Clone, PartialEq)]
pub struct ApiExecResponse {
    pub instruction_seq: Option<InstructionSeq>,
    pub interrupted: bool,
    pub machine: Option<MachineName>,
}

/// An `ApiExecResponse` as a mathematical value.
pub struct ApiExecResponseView {
    pub instruction_seq: Option<InstructionSeq>,
    pub interrupted: bool,
    pub machine: Option<Seq<char>>,
}

impl View for ApiExecResponse {
    type V = ApiExecResponseView;

    open spec fn view(&self) -> ApiExecResponseView {
        ApiExecResponseView {
            instruction_seq: self.instruction_seq,
            interrupted: self.interrupted,
            machine: match self.machine {
                Some(name) => Some(name@),
                None => None,
            },
        }
    }
}

impl Default for CreateMachineRequest {
    fn default() -> (r: CreateMachineRequest)
        ensures
            r.tags@.len() == 0,
            r.memory_mb is None,
    {
        CreateMachineRequest { tags: Vec::new(), memory_mb: None }
    }
}

impl Default for ListMachinesRequest {
    fn default() -> (r: ListMachinesRequest)
        ensures
            r.tags@.len() == 0,
    {
        ListMachinesRequest { tags: Vec::new() }
    }
}

/// Whether a truth value is `false`: such a member is left out of a body.
pub fn bool_is_false(b: &bool) -> (r: bool)
    ensures
        r == !*b,
{
    !*b
}

/// The truth value of the member `field`: `false` where the member is absent.
pub open spec fn bool_or_false_of(document: JsonValue, field: Seq<char>) -> Result<
    bool,
    DecodeErrorView,
> {
    match document.field(field) {
        None => Ok(false),
        Some(member) => match member.as_bool() {
            Some(truth) => Ok(truth),
            None => Err(DecodeErrorView::InvalidField { field }),
        },
    }
}

/// The truth value of the member `field`, which has to be there.
pub open spec fn required_bool_of(document: JsonValue, field: Seq<char>) -> Result<
    bool,
    DecodeErrorView,
> {
    match document.field(field) {
        None => Err(DecodeErrorView::MissingField { field }),
        Some(member) => match member.as_bool() {
            Some(truth) => Ok(truth),
            None => Err(DecodeErrorView::InvalidField { field }),
        },
    }
}

/// The number in the member `field`, an integer that fits `i64`, where the
/// member is there and not null.
pub open spec fn optional_i64_of(document: JsonValue, field: Seq<char>) -> Result<
    Option<i64>,
    DecodeErrorView,
> {
    match document.field(field) {
        None => Ok(None),
        Some(member) => if member is Null {
            Ok(None)
        } else {
            match member.as_i64() {
                Some(number) => Ok(Some(number)),
                None => Err(DecodeErrorView::InvalidField { field }),
            }
        },
    }
}

/// The account that a body names.
pub open spec fn whoami_of(document: JsonValue) -> Result<Seq<char>, DecodeErrorView> {
    required_str_of(document, "account"@)
}

/// The machine that a body names.
pub open spec fn created_machine_of(document: JsonValue) -> Result<Seq<char>, DecodeErrorView> {
    required_str_of(document, "machine_name"@)
}

/// The answer to a request to run an instruction that a body holds.
pub open spec fn exec_response_of(document: JsonValue) -> Result<
    ApiExecResponseView,
    DecodeErrorView,
> {
    match optional_i64_of(document, "instruction_seq"@) {
        Err(error) => Err(error),
        Ok(seq) => match bool_or_false_of(document, "interrupted"@) {
            Err(error) => Err(error),
            Ok(interrupted) => match optional_str_of(document, "machine"@) {
                Err(error) => Err(error),
                Ok(machine) => Ok(
                    ApiExecResponseView {
                        instruction_seq: match seq {
                            Some(number) => Some(InstructionSeq(number)),
                            None => None,
                        },
                        interrupted,
                        machine,
                    },
                ),
            },
        },
    }
}

/// The machine that an object of a list holds.
pub open spec fn api_machine_of(document: JsonValue) -> Result<ApiMachineView, DecodeErrorView> {
    match required_str_of(document, "name"@) {
        Err(error) => Err(error),
        Ok(name) => match required_str_of(document, "created_at"@) {
            Err(error) => Err(error),
            Ok(created_at) => match required_bool_of(document, "running"@) {
                Err(error) => Err(error),
                Ok(running) => match required_bool_of(document, "has_pending_instruction"@) {
                    Err(error) => Err(error),
                    Ok(has_pending_instruction) => match optional_str_of(document, "expires_at"@) {
                        Err(error) => Err(error),
                        Ok(expires_at) => Ok(
                            ApiMachineView {
                                name,
                                created_at,
                                running,
                                has_pending_instruction,
                                expires_at,
                            },
                        ),
                    },
                },
            },
        },
    }
}

/// The machines that the items of an array hold; the first item that holds
/// none decides the failure.
pub open spec fn api_machines_of(items: Seq<JsonValue>) -> Result<
    Seq<ApiMachineView>,
    DecodeErrorView,
>
    decreases items.len(),
{
    if items.len() == 0 {
        Ok(Seq::empty())
    } else {
        match api_machines_of(items.drop_last()) {
            Err(error) => Err(error),
            Ok(machines) => match api_machine_of(items.last()) {
                Err(error) => Err(error),
                Ok(machine) => Ok(machines.push(machine)),
            },
        }
    }
}

/// The list of machines that a body holds, in its member `machines`.
pub open spec fn machine_list_of(document: JsonValue) -> Result<
    Seq<ApiMachineView>,
    DecodeErrorView,
> {
    match document.field("machines"@) {
        None => Err(DecodeErrorView::MissingField { field: "machines"@ }),
        Some(member) => match member.as_array() {
            None => Err(DecodeErrorView::InvalidField { field: "machines"@ }),
            Some(items) => api_machines_of(items),
        },
    }
}

/// The views of machines, one for one.
pub open spec fn machine_views(machines: Seq<ApiMachine>) -> Seq<ApiMachineView> {
    Seq::new(machines.len(), |i: int| machines[i]@)
}

/// The members of the object that holds tags: each key with its value, the
/// later of two tags with one key.
pub open spec fn tag_members_of(tags: Seq<Tag>) -> Map<Seq<char>, JsonValue>
    decreases tags.len(),
{
    if tags.len() == 0 {
        JsonValue::no_members()
    } else {
        tag_members_of(tags.drop_last()).insert(
            tags.last().key@,
            JsonValue::Str(tags.last().value@),
        )
    }
}

/// The members of a body that holds tags, which are left out where there are
/// none.
pub open spec fn with_tags(members: Map<Seq<char>, JsonValue>, tags: Seq<Tag>) -> Map<
    Seq<char>,
    JsonValue,
> {
    if tags.len() == 0 {
        members
    } else {
        members.insert("tags"@, JsonValue::Object(tag_members_of(tags)))
    }
}

/// The body of a request for a new machine: `tags` where there are any, and
/// `memory_mb` where it is given.
pub open spec fn json_of_create_machine(tags: Seq<Tag>, memory_mb: Option<u32>) -> JsonValue {
    let tagged = with_tags(JsonValue::no_members(), tags);
    JsonValue::Object(
        match memory_mb {
            Some(megabytes) => tagged.insert("memory_mb"@, JsonValue::Int(megabytes as int)),
            None => tagged,
        },
    )
}

/// The body of a request for the list of machines: `tags` where there are any.
pub open spec fn json_of_list_machines(tags: Seq<Tag>) -> JsonValue {
    JsonValue::Object(with_tags(JsonValue::no_members(), tags))
}

/// The body of a request to run an instruction.
pub open spec fn json_of_exec_request(instruction: InstructionView, interrupt: bool) -> JsonValue {
    JsonValue::Object(
        JsonValue::no_members().insert("instruction"@, json_of_instruction(instruction)).insert(
            "interrupt"@,
            JsonValue::Bool(interrupt),
        ),
    )
}

fn bool_or_false(document: &serde_json::Value, field: &'static str) -> (r: Result<
    bool,
    DecodeError,
>)
    ensures
        decoded_plain(r) == bool_or_false_of(json_model(*document), field@),
{
    match value_get(document, field) {
        None => Ok(false),
        Some(member) => match value_as_bool(member) {
            Some(truth) => Ok(truth),
            None => Err(DecodeError::InvalidField { field }),
        },
    }
}

fn required_bool(document: &serde_json::Value, field: &'static str) -> (r: Result<
    bool,
    DecodeError,
>)
    ensures
        decoded_plain(r) == required_bool_of(json_model(*document), field@),
{
    match value_get(document, field) {
        None => Err(DecodeError::MissingField { field }),
        Some(member) => match value_as_bool(member) {
            Some(truth) => Ok(truth),
            None => Err(DecodeError::InvalidField { field }),
        },
    }
}

fn optional_i64(document: &serde_json::Value, field: &'static str) -> (r: Result<
    Option<i64>,
    DecodeError,
>)
    ensures
        decoded_plain(r) == optional_i64_of(json_model(*document), field@),
{
    match value_get(document, field) {
        None => Ok(None),
        Some(member) => {
            if value_is_null(member) {
                Ok(None)
            } else {
                match value_as_i64(member) {
                    Some(number) => Ok(Some(number)),
                    None => Err(DecodeError::InvalidField { field }),
                }
            }
        },
    }
}

fn required_string(document: &serde_json::Value, field: &'static str) -> (r: Result<
    String,
    DecodeError,
>)
    ensures
        decoded(r) == required_str_of(json_model(*document), field@),
{
    match value_get(document, field) {
        None => Err(DecodeError::MissingField { field }),
        Some(member) => match value_as_str(member) {
            Some(text) => Ok(text.to_owned()),
            None => Err(DecodeError::InvalidField { field }),
        },
    }
}

fn optional_string(document: &serde_json::Value, field: &'static str) -> (r: Result<
    Option<String>,
    DecodeError,
>)
    ensures
        match r {
            Ok(Some(text)) => optional_str_of(json_model(*document), field@) == Ok::<
                Option<Seq<char>>,
                DecodeErrorView,
            >(Some(text@)),
            Ok(None) => optional_str_of(json_model(*document), field@) == Ok::<
                Option<Seq<char>>,
                DecodeErrorView,
            >(None),
            Err(error) => optional_str_of(json_model(*document), field@) == Err::<
                Option<Seq<char>>,
                DecodeErrorView,
            >(error@),
        },
{
    match value_get(document, field) {
        None => Ok(None),
        Some(member) => {
            if value_is_null(member) {
                Ok(None)
            } else {
                match value_as_str(member) {
                    Some(text) => Ok(Some(text.to_owned())),
                    None => Err(DecodeError::InvalidField { field }),
                }
            }
        },
    }
}

/// Reads the answer to the question who the token belongs to.
pub fn whoami_from_json(document: &serde_json::Value) -> (r: Result<WhoamiResponse, DecodeError>)
    ensures
        match r {
            Ok(response) => whoami_of(json_model(*document)) matches Ok(account) && account
                == response.account@,
            Err(error) => whoami_of(json_model(*document)) matches Err(e) && e == error@,
        },
{
    let account = required_string(document, "account")?;
    Ok(WhoamiResponse { account })
}

/// Reads the answer to a request for a new machine.
pub fn create_machine_response_from_json(document: &serde_json::Value) -> (r: Result<
    CreateMachineResponse,
    DecodeError,
>)
    ensures
        match r {
            Ok(response) => created_machine_of(json_model(*document)) matches Ok(name) && name
                == response.machine_name@,
            Err(error) => created_machine_of(json_model(*document)) matches Err(e) && e == error@,
        },
{
    let machine_name = required_string(document, "machine_name")?;
    Ok(CreateMachineResponse { machine_name: MachineName(machine_name) })
}

/// Reads the answer to a request to run an instruction.
pub fn exec_response_from_json(document: &serde_json::Value) -> (r: Result<
    ApiExecResponse,
    DecodeError,
>)
    ensures
        decoded(r) == exec_response_of(json_model(*document)),
{
    let seq = optional_i64(document, "instruction_seq")?;
    let interrupted = bool_or_false(document, "interrupted")?;
    let machine = optional_string(document, "machine")?;
    Ok(
        ApiExecResponse {
            instruction_seq: match seq {
                Some(number) => Some(InstructionSeq(number)),
                None => None,
            },
            interrupted,
            machine: match machine {
                Some(name) => Some(MachineName(name)),
                None => None,
            },
        },
    )
}

/// Reads a machine from the object of a list that holds it.
pub fn api_machine_from_json(document: &serde_json::Value) -> (r: Result<ApiMachine, DecodeError>)
    ensures
        decoded(r) == api_machine_of(json_model(*document)),
{
    let name = required_string(document, "name")?;
    let created_at = required_string(document, "created_at")?;
    let running = required_bool(document, "running")?;
    let has_pending_instruction = required_bool(document, "has_pending_instruction")?;
    let expires_at = optional_string(document, "expires_at")?;
    Ok(
        ApiMachine {
            name: MachineName(name),
            created_at,
            running,
            has_pending_instruction,
            expires_at,
        },
    )
}

/// Where the first items of an array decide a failure, the whole array does.
proof fn lemma_first_failure_decides(items: Seq<JsonValue>, upto: int)
    requires
        0 <= upto <= items.len(),
        api_machines_of(items.subrange(0, upto)) is Err,
    ensures
        api_machines_of(items) == api_machines_of(items.subrange(0, upto)),
    decreases items.len() - upto,
{
    if upto < items.len() {
        let longer = items.subrange(0, upto + 1);
        assert(longer.drop_last() =~= items.subrange(0, upto));
        lemma_first_failure_decides(items, upto + 1);
    } else {
        assert(items.subrange(0, upto) =~= items);
    }
}

/// Reads the list of the machines of an account.
pub fn list_machines_response_from_json(document: &serde_json::Value) -> (r: Result<
    ListMachinesResponse,
    DecodeError,
>)
    ensures
        match r {
            Ok(response) => machine_list_of(json_model(*document)) matches Ok(machines)
                && machines == machine_views(response.machines@),
            Err(error) => machine_list_of(json_model(*document)) matches Err(e) && e == error@,
        },
{
    let member = match value_get(document, "machines") {
        Some(member) => member,
        None => {
            return Err(DecodeError::MissingField { field: "machines" });
        },
    };
    let items = match value_as_array(member) {
        Some(items) => items,
        None => {
            return Err(DecodeError::InvalidField { field: "machines" });
        },
    };
    let ghost models = json_model(*member).as_array().unwrap();
    let mut machines: Vec<ApiMachine> = Vec::new();
    let mut at: usize = 0;
    while at < items.len()
        invariant
            at <= items@.len(),
            models.len() == items@.len(),
            machine_list_of(json_model(*document)) == api_machines_of(models),
            forall|i: int| 0 <= i < items@.len() ==> json_model(#[trigger] items@[i]) == models[i],
            api_machines_of(models.subrange(0, at as int)) matches Ok(found) && found
                == machine_views(machines@),
        decreases items@.len() - at,
    {
        let ghost before = models.subrange(0, at as int);
        let ghost with_item = models.subrange(0, at as int + 1);
        assert(with_item.drop_last() =~= before);
        assert(with_item.last() == models[at as int]);
        match api_machine_from_json(&items[at]) {
            Ok(machine) => {
                let ghost held = machine_views(machines@);
                machines.push(machine);
                assert(machine_views(machines@) =~= held.push(machine@));
            },
            Err(error) => {
                proof {
                    assert(api_machine_of(with_item.last()) matches Err(e) && e == error@);
                    assert(api_machines_of(with_item) matches Err(e) && e == error@);
                    lemma_first_failure_decides(models, at as int + 1);
                }
                return Err(error);
            },
        }
        at = at + 1;
    }
    assert(models.subrange(0, at as int) =~= models);
    Ok(ListMachinesResponse { machines })
}

/// Writes tags as the object that holds them.
fn tags_to_json(tags: &Vec<Tag>) -> (r: serde_json::Value)
    ensures
        json_model(r) == JsonValue::Object(tag_members_of(tags@)),
{
    let mut members = map_new();
    let mut at: usize = 0;
    while at < tags.len()
        invariant
            at <= tags@.len(),
            json_members(members) == tag_members_of(tags@.subrange(0, at as int)),
        decreases tags@.len() - at,
    {
        let ghost with_tag = tags@.subrange(0, at as int + 1);
        assert(with_tag.drop_last() =~= tags@.subrange(0, at as int));
        assert(with_tag.last() == tags@[at as int]);
        map_insert(&mut members, tags[at].key.clone(), value_from_str(tags[at].value.as_str()));
        at = at + 1;
    }
    assert(tags@.subrange(0, at as int) =~= tags@);
    value_object(members)
}

/// Writes the body of a request for a new machine.
pub fn create_machine_request_to_json(request: &CreateMachineRequest) -> (r: serde_json::Value)
    ensures
        json_model(r) == json_of_create_machine(request.tags@, request.memory_mb),
{
    let mut members = map_new();
    if request.tags.len() > 0 {
        map_insert(&mut members, "tags".to_owned(), tags_to_json(&request.tags));
    }
    if let Some(megabytes) = request.memory_mb {
        map_insert(&mut members, "memory_mb".to_owned(), value_from_u64(megabytes as u64));
    }
    value_object(members)
}

/// Writes the body of a request for the list of machines.
pub fn list_machines_request_to_json(request: &ListMachinesRequest) -> (r: serde_json::Value)
    ensures
        json_model(r) == json_of_list_machines(request.tags@),
{
    let mut members = map_new();
    if request.tags.len() > 0 {
        map_insert(&mut members, "tags".to_owned(), tags_to_json(&request.tags));
    }
    value_object(members)
}

/// Writes the body of a request to run an instruction.
pub fn exec_request_to_json(request: &ApiExecRequest) -> (r: serde_json::Value)
    ensures
        json_model(r) == json_of_exec_request(request.instruction@, request.interrupt),
{
    let mut members = map_new();
    map_insert(&mut members, "instruction".to_owned(), instruction_to_json(&request.instruction));
    map_insert(&mut members, "interrupt".to_owned(), value_from_bool(request.interrupt));
    value_object(members)
}

/// The text of a body: every document has one, the text that `serde_json`
/// writes for it.
pub fn encode_body(document: &serde_json::Value) -> (r: Result<String, DecodeError>)
    ensures
        r matches Ok(text) && text@ == json_print(json_model(*document)),
{
    match print_value(document) {
        Ok(text) => Ok(text),
        Err(error) => Err(DecodeError::Json(error)),
    }
}

/// Reads the document that a body holds.
pub fn decode_body(text: &str) -> (r: Result<serde_json::Value, DecodeError>)
    ensures
        match r {
            Ok(document) => crate::json::json_parse(text@) == Some(json_model(document)),
            Err(error) => crate::json::json_parse(text@) is None && error@
                == DecodeErrorView::Json,
        },
{
    match parse_value(text) {
        Ok(document) => Ok(document),
        Err(error) => Err(DecodeError::Json(error)),
    }
}

} // verus!
