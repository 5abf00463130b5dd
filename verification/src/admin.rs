//! The rules of the admin interface: who may use it, what an upload must
//! hold, and what it tells about a cached artifact.

use crate::handler::{is_json_response, is_text_response};
use crate::json::{
    array_text, build_object2, build_object3, json_array, json_flag, json_number, json_render,
    json_string, object2, object3, string_text, text_of, texts_of,
};
use crate::module::{
    content_hash_of, core_compiles, core_failure, id_from_name, module_id_from_name, CompiledModule,
};
use crate::response::WasmHttpResponse;
use crate::state::AppState;
use crate::text::{concat2, decimal, same_text};
use vstd::prelude::*;
use vstd::string::*;

verus! {

/// What the admin interface tells about a cached artifact.
#[derive(Debug, Clone)]
pub struct ModuleInfo {
    /// Identifier of the artifact.
    pub id: String,
    /// Content hash of the bytes it was compiled from.
    pub content_hash: String,
    /// Whether it is a component.
    pub is_component: bool,
}

/// How the admin interface is mounted.
#[derive(Debug, Clone)]
pub struct AdminRouterConfig {
    /// URL prefix of the admin interface.
    pub prefix: String,
    /// The token that callers must present.
    pub token: String,
}

/// Why a caller is not let in. Either way the answer is status 401.
#[derive(Debug, Clone, Copy, PartialEq, Eq, Structural)]
pub enum TokenError {
    /// The request carries no token.
    Missing,
    /// The token is not the expected one.
    Invalid,
}

/// Why an upload is refused. Either way the answer is status 400.
#[derive(Debug, Clone, Copy, PartialEq, Eq, Structural)]
pub enum UploadError {
    /// The identifier field could not be read as text.
    InvalidIdField,
    /// The file field could not be read.
    UnreadableFile,
    /// The form holds a module but nothing names it.
    MissingModuleId,
    /// The form holds no module.
    MissingWasmFile,
}

/// What a field of the upload form is for, by its name.
#[derive(Debug, Clone, Copy, PartialEq, Eq, Structural)]
pub enum FieldKind {
    /// `id` or `module_id`: the identifier of the module.
    Id,
    /// `file`, `wasm` or `module`: the module itself.
    File,
    /// Any other field; it is ignored.
    Other,
}

/// What was found in an upload form so far.
#[derive(Debug)]
pub struct UploadForm {
    module_id: Option<String>,
    wasm_bytes: Option<Vec<u8>>,
}

/// What a field of that name is for.
pub open spec fn kind_of_field(name: Seq<char>) -> FieldKind {
    if name == "id"@ || name == "module_id"@ {
        FieldKind::Id
    } else if name == "file"@ || name == "wasm"@ || name == "module"@ {
        FieldKind::File
    } else {
        FieldKind::Other
    }
}

/// Whether a presented token lets the caller in.
pub open spec fn token_check(presented: Option<Seq<char>>, expected: Seq<char>) -> Result<
    (),
    TokenError,
> {
    match presented {
        Some(token) => if token == expected {
            Ok(())
        } else {
            Err(TokenError::Invalid)
        },
        None => Err(TokenError::Missing),
    }
}

/// Whether a presented token lets the caller in: it must be there and equal
/// the expected one.
pub fn verify_token(presented: Option<&str>, expected: &str) -> (r: Result<(), TokenError>)
    ensures
        r == token_check(
            match presented {
                Some(token) => Some(token@),
                None => None,
            },
            expected@,
        ),
{
    match presented {
        Some(token) => {
            if same_text(token, expected) {
                Ok(())
            } else {
                Err(TokenError::Invalid)
            }
        },
        None => Err(TokenError::Missing),
    }
}

/// What a field of that name is for.
pub fn field_kind(name: &str) -> (kind: FieldKind)
    ensures
        kind == kind_of_field(name@),
{
    if same_text(name, "id") || same_text(name, "module_id") {
        FieldKind::Id
    } else if same_text(name, "file") || same_text(name, "wasm") || same_text(name, "module") {
        FieldKind::File
    } else {
        FieldKind::Other
    }
}

impl TokenError {
    /// The status that answers the caller.
    pub fn status(&self) -> (status: u16)
        ensures
            status == 401,
    {
        401
    }

    /// The text that answers the caller.
    pub fn message(&self) -> (text: &'static str)
        ensures
            text@ == self.text(),
    {
        match self {
            TokenError::Missing => "Missing X-Admin-Token header",
            TokenError::Invalid => "Invalid admin token",
        }
    }

    /// The text that answers the caller.
    pub open spec fn text(&self) -> Seq<char> {
        match self {
            TokenError::Missing => "Missing X-Admin-Token header"@,
            TokenError::Invalid => "Invalid admin token"@,
        }
    }

    /// The response that turns the caller away.
    pub fn response(&self) -> (response: WasmHttpResponse)
        ensures
            is_text_response(response, 401, self.text()),
    {
        WasmHttpResponse::text(401, self.message())
    }
}

impl UploadError {
    /// The status that answers the caller.
    pub fn status(&self) -> (status: u16)
        ensures
            status == 400,
    {
        400
    }

    /// The text that answers the caller.
    pub fn message(&self) -> (text: &'static str)
        ensures
            text@ == self.text(),
    {
        match self {
            UploadError::InvalidIdField => "Invalid id field",
            UploadError::UnreadableFile => "Failed to read file",
            UploadError::MissingModuleId => "Missing module id",
            UploadError::MissingWasmFile => "Missing wasm file",
        }
    }

    /// The text that answers the caller.
    pub open spec fn text(&self) -> Seq<char> {
        match self {
            UploadError::InvalidIdField => "Invalid id field"@,
            UploadError::UnreadableFile => "Failed to read file"@,
            UploadError::MissingModuleId => "Missing module id"@,
            UploadError::MissingWasmFile => "Missing wasm file"@,
        }
    }
}

/// Whether the content hash and the kind of a description are those of an
/// artifact.
pub open spec fn describes(info: ModuleInfo, artifact: CompiledModule) -> bool {
    info.content_hash@ == artifact.hash() && info.is_component == artifact.component()
}

/// The JSON text that describes a cached artifact.
pub open spec fn info_text(info: ModuleInfo) -> Seq<char> {
    object3(
        "id"@,
        string_text(info.id@),
        "content_hash"@,
        string_text(info.content_hash@),
        "is_component"@,
        if info.is_component {
            "true"@
        } else {
            "false"@
        },
    )
}

/// The JSON text that describes every cached artifact, with their number.
pub open spec fn info_list_text(infos: Seq<ModuleInfo>) -> Seq<char> {
    object2(
        "modules"@,
        array_text(Seq::new(infos.len(), |i: int| info_text(infos[i]))),
        "count"@,
        decimal(infos.len()),
    )
}

/// The JSON text that confirms an upload.
pub open spec fn uploaded_text(id: Seq<char>, content_hash: Seq<char>) -> Seq<char> {
    object3(
        "id"@,
        string_text(id),
        "content_hash"@,
        string_text(content_hash),
        "message"@,
        string_text("Module uploaded successfully"@),
    )
}

/// The JSON text that confirms a removal.
pub open spec fn deleted_text(id: Seq<char>) -> Seq<char> {
    object2("id"@, string_text(id), "message"@, string_text("Module deleted successfully"@))
}

impl ModuleInfo {
    /// The JSON document that describes the artifact.
    pub fn to_json(&self) -> (document: serde_json::Value)
        ensures
            text_of(document) == info_text(*self),
    {
        build_object3(
            "id",
            json_string(self.id.as_str()),
            "content_hash",
            json_string(self.content_hash.as_str()),
            "is_component",
            json_flag(self.is_component),
        )
    }
}

impl UploadForm {
    /// The identifier found so far.
    pub closed spec fn id(&self) -> Option<Seq<char>> {
        match self.module_id {
            Some(id) => Some(id@),
            None => None,
        }
    }

    /// The module found so far.
    pub closed spec fn bytes(&self) -> Option<Seq<u8>> {
        match self.wasm_bytes {
            Some(bytes) => Some(bytes@),
            None => None,
        }
    }

    /// A form in which nothing was found yet.
    pub fn new() -> (form: Self)
        ensures
            form.id() is None,
            form.bytes() is None,
    {
        UploadForm { module_id: None, wasm_bytes: None }
    }

    /// Takes in an identifier field: it names the module, in place of any
    /// name found before.
    pub fn set_id(&mut self, id: String)
        ensures
            final(self).id() == Some(id@),
            final(self).bytes() == old(self).bytes(),
    {
        self.module_id = Some(id);
    }

    /// Takes in a file field: it is the module, in place of any found
    /// before. Where nothing names the module yet and the field carries a
    /// file name, the stem of that name does.
    pub fn set_file(&mut self, file_name: Option<&str>, bytes: Vec<u8>)
        ensures
            final(self).bytes() == Some(bytes@),
            final(self).id() == match (old(self).id(), file_name) {
                (None, Some(name)) => Some(id_from_name(Some(name@), "uploaded"@)),
                (found, _) => found,
            },
    {
        if self.module_id.is_none() {
            match file_name {
                Some(name) => {
                    self.module_id = Some(module_id_from_name(Some(name), "uploaded"));
                },
                None => {},
            }
        }
        self.wasm_bytes = Some(bytes);
    }

    /// The identifier and the module of a complete form, or what is
    /// missing: a missing module is reported before a missing identifier.
    pub fn finish(self) -> (r: Result<(String, Vec<u8>), UploadError>)
        ensures
            match (self.id(), self.bytes()) {
                (Some(id), Some(bytes)) => r matches Ok(found) && found.0@ == id && found.1@
                    == bytes,
                (None, Some(_)) => r matches Err(UploadError::MissingModuleId),
                (_, None) => r matches Err(UploadError::MissingWasmFile),
            },
    {
        match (self.module_id, self.wasm_bytes) {
            (Some(id), Some(bytes)) => Ok((id, bytes)),
            (None, Some(_)) => Err(UploadError::MissingModuleId),
            (_, None) => Err(UploadError::MissingWasmFile),
        }
    }
}

impl AppState {
    /// Serves an upload: compiles the module of a complete form and caches
    /// it under its identifier, which is confirmed with status 200. A
    /// refused form, and a module that does not compile, are answered with
    /// status 400 and leave the cache as it is.
    pub fn upload_module(&mut self, form: Result<(String, Vec<u8>), UploadError>) -> (response:
        WasmHttpResponse)
        ensures
            response.status == 200 <==> (form matches Ok(upload) && core_compiles(
                old(self).running_engine(),
                upload.1@,
            )),
            match form {
                Ok(upload) => if core_compiles(old(self).running_engine(), upload.1@) {
                    &&& is_json_response(
                        response,
                        200,
                        uploaded_text(upload.0@, content_hash_of(upload.1@)),
                    )
                    &&& final(self).cached().dom() == old(self).cached().dom().insert(upload.0@)
                    &&& final(self).cached()[upload.0@].hash() == content_hash_of(upload.1@)
                    &&& !final(self).cached()[upload.0@].component()
                    &&& forall|other: Seq<char>|
                        other != upload.0@ && old(self).cached().contains_key(other)
                            ==> #[trigger] final(self).cached()[other] == old(
                            self,
                        ).cached()[other]
                } else {
                    &&& is_text_response(
                        response,
                        400,
                        "Compilation failed: "@ + ("Compilation failed: "@ + core_failure(
                            old(self).running_engine(),
                            upload.1@,
                        )),
                    )
                    &&& final(self).cached() == old(self).cached()
                },
                Err(refusal) => {
                    &&& is_text_response(response, 400, refusal.text())
                    &&& final(self).cached() == old(self).cached()
                },
            },
            final(self).running_engine() == old(self).running_engine(),
            final(self).budget() == old(self).budget(),
            final(self).permissions() == old(self).permissions(),
            final(self).engine_config() == old(self).engine_config(),
            final(self).capabilities() == old(self).capabilities(),
    {
        let (id, bytes) = match form {
            Ok(upload) => upload,
            Err(refusal) => {
                return WasmHttpResponse::text(400, refusal.message());
            },
        };
        match self.load_module(id.as_str(), bytes.as_slice()) {
            Ok(artifact) => {
                let document = build_object3(
                    "id",
                    json_string(id.as_str()),
                    "content_hash",
                    json_string(artifact.content_hash()),
                    "message",
                    json_string("Module uploaded successfully"),
                );
                let body = json_render(&document);
                WasmHttpResponse::json(200, body.as_str())
            },
            Err(e) => {
                let detail = e.to_string();
                let line = concat2("Compilation failed: ", detail.as_str());
                WasmHttpResponse::text(400, line.as_str())
            },
        }
    }

    /// Serves a removal: discards the artifact cached under the identifier,
    /// or answers with status 404 where there is none.
    pub fn delete_module(&mut self, module_id: &str) -> (response: WasmHttpResponse)
        ensures
            final(self).cached() == old(self).cached().remove(module_id@),
            if old(self).cached().contains_key(module_id@) {
                is_json_response(response, 200, deleted_text(module_id@))
            } else {
                is_text_response(response, 404, "Module not found: "@ + module_id@)
            },
            final(self).budget() == old(self).budget(),
            final(self).permissions() == old(self).permissions(),
            final(self).engine_config() == old(self).engine_config(),
            final(self).capabilities() == old(self).capabilities(),
    {
        match self.remove_module(module_id) {
            Some(_) => {
                let document = build_object2(
                    "id",
                    json_string(module_id),
                    "message",
                    json_string("Module deleted successfully"),
                );
                let body = json_render(&document);
                WasmHttpResponse::json(200, body.as_str())
            },
            None => {
                let line = concat2("Module not found: ", module_id);
                WasmHttpResponse::text(404, line.as_str())
            },
        }
    }

    /// Serves a lookup: describes the artifact cached under the
    /// identifier, or answers with status 404 where there is none.
    pub fn get_module_info(&self, module_id: &str) -> (response: WasmHttpResponse)
        ensures
            if self.cached().contains_key(module_id@) {
                exists|info: ModuleInfo|
                    {
                        &&& info.id@ == module_id@
                        &&& describes(info, self.cached()[module_id@])
                        &&& #[trigger] is_json_response(response, 200, info_text(info))
                    }
            } else {
                is_text_response(response, 404, "Module not found: "@ + module_id@)
            },
    {
        match self.module_info(module_id) {
            Some(info) => {
                let body = json_render(&info.to_json());
                let response = WasmHttpResponse::json(200, body.as_str());
                assert(is_json_response(response, 200, info_text(info)));
                response
            },
            None => {
                let line = concat2("Module not found: ", module_id);
                WasmHttpResponse::text(404, line.as_str())
            },
        }
    }

    /// Serves the listing: describes every cached artifact.
    pub fn list_modules_admin(&self) -> (response: WasmHttpResponse)
        ensures
            exists|infos: Seq<ModuleInfo>|
                {
                    &&& infos.len() == self.cached().dom().len()
                    &&& forall|i: int|
                        0 <= i < infos.len() ==> self.cached().contains_key(
                            (#[trigger] infos[i]).id@,
                        ) && describes(infos[i], self.cached()[infos[i].id@])
                    &&& forall|i: int, j: int|
                        0 <= i < j < infos.len() ==> (#[trigger] infos[i]).id@ != (
                        #[trigger] infos[j]).id@
                    &&& #[trigger] is_json_response(response, 200, info_list_text(infos))
                },
    {
        let infos = self.module_infos();
        let mut documents: Vec<serde_json::Value> = Vec::new();
        let mut i: usize = 0;
        while i < infos.len()
            invariant
                i <= infos@.len(),
                documents@.len() == i,
                forall|k: int|
                    0 <= k < i ==> text_of(#[trigger] documents@[k]) == info_text(infos@[k]),
            decreases infos@.len() - i,
        {
            documents.push(infos[i].to_json());
            i += 1;
        }
        assert(texts_of(documents@) =~= Seq::new(infos@.len(), |i: int| info_text(infos@[i])));
        let document = build_object2(
            "modules",
            json_array(documents),
            "count",
            json_number(infos.len() as u64),
        );
        let body = json_render(&document);
        let response = WasmHttpResponse::json(200, body.as_str());
        assert(is_json_response(response, 200, info_list_text(infos@)));
        response
    }

    /// What the admin interface tells about the artifact cached under the
    /// identifier, if there is one.
    pub fn module_info(&self, module_id: &str) -> (r: Option<ModuleInfo>)
        ensures
            r is Some <==> self.cached().contains_key(module_id@),
            r matches Some(info) ==> info.id@ == module_id@ && describes(info, self.cached()[module_id@]),
    {
        match self.get_module(module_id) {
            Some(artifact) => Some(
                ModuleInfo {
                    id: String::from_str(module_id),
                    content_hash: String::from_str(artifact.content_hash()),
                    is_component: artifact.is_component(),
                },
            ),
            None => None,
        }
    }

    /// What the admin interface tells about every cached artifact, in no
    /// particular order.
    pub fn module_infos(&self) -> (infos: Vec<ModuleInfo>)
        ensures
            infos@.len() == self.cached().dom().len(),
            forall|i: int|
                0 <= i < infos@.len() ==> self.cached().contains_key(
                    (#[trigger] infos@[i]).id@,
                ) && describes(infos@[i], self.cached()[infos@[i].id@]),
            forall|i: int, j: int|
                0 <= i < j < infos@.len() ==> (#[trigger] infos@[i]).id@ != (
                #[trigger] infos@[j]).id@,
    {
        let ids = self.list_modules();
        let ghost names = crate::state::texts(ids@);
        proof {
            names.unique_seq_to_set();
        }
        let mut infos: Vec<ModuleInfo> = Vec::new();
        let mut i: usize = 0;
        while i < ids.len()
            invariant
                i <= ids@.len(),
                names == crate::state::texts(ids@),
                names.no_duplicates(),
                names.to_set() == self.cached().dom(),
                infos@.len() == i,
                forall|k: int| 0 <= k < i ==> (#[trigger] infos@[k]).id@ == names[k],
                forall|k: int|
                    0 <= k < i ==> describes((#[trigger] infos@[k]), self.cached()[names[k]]),
            decreases ids@.len() - i,
        {
            proof {
                assert(names[i as int] == ids@[i as int]@);
                assert(names.to_set().contains(names[i as int]));
            }
            match self.module_info(ids[i].as_str()) {
                Some(info) => {
                    infos.push(info);
                },
                None => {
                    assert(false);
                },
            }
            i += 1;
        }
        proof {
            assert forall|k: int| 0 <= k < infos@.len() implies self.cached().contains_key(
                (#[trigger] infos@[k]).id@,
            ) by {
                assert(names.to_set().contains(names[k]));
            }
        }
        infos
    }
}

} // verus!
