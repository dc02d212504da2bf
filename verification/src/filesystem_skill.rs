use vstd::prelude::*;
use crate::error::{AppError, AppErrorV, IoErrorKind, io_error};
use crate::json::{Json, JsonV, as_str, field, flag, lookup, get_bool, get_field, get_str, jobject, jstr, jstring, view_jsons, jarray};
use crate::model::{SkillDefinition, SkillDefinitionV, Tool, ToolV, tools_view};
use crate::schema::{
    function_tool, function_tool_v, members1, members2, members3, object_schema, object_schema_v,
    prop, prop_v, skill, skill_v, strs1, strs2, strs5, tools4,
};
use crate::text::{append_str, str_eq};

verus! {

pub open spec fn read_file_tool_v() -> ToolV {
    function_tool_v(
        "read_file"@,
        "Lê o conteúdo de um arquivo local."@,
        object_schema_v(
            seq![("path"@, prop_v("string"@, "Caminho do arquivo local a ser lido."@))],
            seq!["path"@],
        ),
    )
}

pub open spec fn write_file_tool_v() -> ToolV {
    function_tool_v(
        "write_file"@,
        "Escreve conteúdo em um arquivo local."@,
        object_schema_v(
            seq![
                ("path"@, prop_v("string"@, "Caminho do arquivo local a ser escrito."@)),
                ("content"@, prop_v("string"@, "Conteúdo a ser gravado no arquivo."@)),
            ],
            seq!["path"@, "content"@],
        ),
    )
}

pub open spec fn list_directory_tool_v() -> ToolV {
    function_tool_v(
        "list_directory"@,
        "Lista arquivos e diretórios de um caminho especificado."@,
        object_schema_v(
            seq![
                ("path"@, prop_v("string"@, "Caminho do diretório a listar."@)),
                ("recursive"@, prop_v("boolean"@, "Se deve listar recursivamente."@)),
            ],
            seq!["path"@],
        ),
    )
}

pub open spec fn make_directory_tool_v() -> ToolV {
    function_tool_v(
        "make_directory"@,
        "Cria um diretório local, incluindo ancestrais."@,
        object_schema_v(
            seq![("path"@, prop_v("string"@, "Caminho do diretório a ser criado."@))],
            seq!["path"@],
        ),
    )
}

pub open spec fn filesystem_tools_v() -> Seq<ToolV> {
    seq![read_file_tool_v(), write_file_tool_v(), list_directory_tool_v(), make_directory_tool_v()]
}

pub open spec fn filesystem_skill_v() -> SkillDefinitionV {
    skill_v(
        "filesystem"@,
        "Operações de arquivos e diretórios locais."@,
        seq!["filesystem"@, "arquivo"@, "diretório"@, "read"@, "write"@],
        filesystem_tools_v(),
    )
}

/// The skill of reading and writing local files and directories.
pub struct FileSystemSkillAdapter;

/// A file-system operation, with the arguments it was asked with.
#[derive(Debug)]
pub enum FsRequest {
    ReadFile { path: String },
    WriteFile { path: String, content: String },
    ListDirectory { path: String, recursive: bool },
    MakeDirectory { path: String },
}

pub enum FsRequestV {
    ReadFile { path: Seq<char> },
    WriteFile { path: Seq<char>, content: Seq<char> },
    ListDirectory { path: Seq<char>, recursive: bool },
    MakeDirectory { path: Seq<char> },
}

impl View for FsRequest {
    type V = FsRequestV;

    open spec fn view(&self) -> FsRequestV {
        match self {
            FsRequest::ReadFile { path } => FsRequestV::ReadFile { path: path@ },
            FsRequest::WriteFile { path, content } => FsRequestV::WriteFile {
                path: path@,
                content: content@,
            },
            FsRequest::ListDirectory { path, recursive } => FsRequestV::ListDirectory {
                path: path@,
                recursive: *recursive,
            },
            FsRequest::MakeDirectory { path } => FsRequestV::MakeDirectory { path: path@ },
        }
    }
}

/// The error for a missing string argument of a tool.
pub open spec fn missing_field(message: Seq<char>) -> AppErrorV {
    AppErrorV::Io(IoErrorKind::InvalidInput, message)
}

pub open spec fn request_view(r: Result<FsRequest, AppError>) -> Result<FsRequestV, AppErrorV> {
    match r {
        Ok(q) => Ok(q@),
        Err(e) => Err(e@),
    }
}

/// What the file-system tools ask for: each needs a string `path`; `write_file`
/// also a string `content`; `list_directory` reads `recursive` as a flag.
pub open spec fn fs_request_v(tool: Seq<char>, args: JsonV) -> Result<FsRequestV, AppErrorV> {
    let path = as_str(field(args, "path"@));
    if tool == "read_file"@ {
        match path {
            Some(p) => Ok(FsRequestV::ReadFile { path: p }),
            None => Err(missing_field("O campo 'path' é obrigatório para read_file."@)),
        }
    } else if tool == "write_file"@ {
        match path {
            None => Err(missing_field("O campo 'path' é obrigatório para write_file."@)),
            Some(p) => match as_str(field(args, "content"@)) {
                Some(c) => Ok(FsRequestV::WriteFile { path: p, content: c }),
                None => Err(missing_field("O campo 'content' é obrigatório para write_file."@)),
            },
        }
    } else if tool == "list_directory"@ {
        match path {
            Some(p) => Ok(FsRequestV::ListDirectory { path: p, recursive: flag(field(args, "recursive"@)) }),
            None => Err(missing_field("O campo 'path' é obrigatório para list_directory."@)),
        }
    } else if tool == "make_directory"@ {
        match path {
            Some(p) => Ok(FsRequestV::MakeDirectory { path: p }),
            None => Err(missing_field("O campo 'path' é obrigatório para make_directory."@)),
        }
    } else {
        Err(AppErrorV::Io(IoErrorKind::NotFound, "Tool '"@ + tool + "' não encontrada no skill filesystem."@))
    }
}

/// The answer of reading the file `path` whose text is `content`.
pub open spec fn read_answer_v(path: Seq<char>, content: Seq<char>) -> JsonV {
    JsonV::Object(seq![("path"@, JsonV::Str(path)), ("content"@, JsonV::Str(content))])
}

/// A file written with `write_file` and then read with `read_file` is one file:
/// the write asks that `content` be put at `path`, the read asks for `path`, and
/// when the file then holds `content` the read answers
/// [`read_answer_v`]`(path, content)`.
pub proof fn law_write_then_read(path: Seq<char>, content: Seq<char>)
    ensures
        fs_request_v(
            "write_file"@,
            JsonV::Object(seq![("path"@, JsonV::Str(path)), ("content"@, JsonV::Str(content))]),
        ) == Ok::<FsRequestV, AppErrorV>(FsRequestV::WriteFile { path, content }),
        fs_request_v("read_file"@, JsonV::Object(seq![("path"@, JsonV::Str(path))]))
            == Ok::<FsRequestV, AppErrorV>(FsRequestV::ReadFile { path }),
{
    reveal_strlit("path");
    reveal_strlit("content");
    reveal_strlit("read_file");
    reveal_strlit("write_file");
    let w = seq![("path"@, JsonV::Str(path)), ("content"@, JsonV::Str(content))];
    assert(w[0].0 == "path"@);
    assert("path"@.len() != "content"@.len());
    assert(w.drop_first() =~= seq![("content"@, JsonV::Str(content))]);
    assert(lookup(seq![("content"@, JsonV::Str(content))], "content"@) == Some(JsonV::Str(content)));
    assert(lookup(w, "content"@) == Some(JsonV::Str(content)));
    assert("read_file"@.len() != "write_file"@.len());
}

/// A listing is recursive exactly when `recursive` is given as `true`: a boolean
/// under `recursive` is taken as it is, anything else (or nothing) means a listing
/// of the top level only.
pub proof fn law_listing_follows_recursive_flag(args: JsonV, path: Seq<char>)
    requires
        field(args, "path"@) == JsonV::Str(path),
    ensures
        field(args, "recursive"@) == JsonV::Bool(true) ==> fs_request_v("list_directory"@, args)
            == Ok::<FsRequestV, AppErrorV>(FsRequestV::ListDirectory { path, recursive: true }),
        field(args, "recursive"@) == JsonV::Bool(false) ==> fs_request_v("list_directory"@, args)
            == Ok::<FsRequestV, AppErrorV>(FsRequestV::ListDirectory { path, recursive: false }),
        !(field(args, "recursive"@) is Bool) ==> fs_request_v("list_directory"@, args) == Ok::<
            FsRequestV,
            AppErrorV,
        >(FsRequestV::ListDirectory { path, recursive: false }),
{
    reveal_strlit("list_directory");
    reveal_strlit("read_file");
    reveal_strlit("write_file");
    assert("list_directory"@.len() != "read_file"@.len());
    assert("list_directory"@.len() != "write_file"@.len());
}

/// Each file-system tool acts on the path it is given: a directory is made at
/// it, and a tool without a string `path` is refused as invalid input.
pub proof fn law_tools_use_given_path(args: JsonV, path: Seq<char>, tool: Seq<char>)
    ensures
        field(args, "path"@) == JsonV::Str(path) ==> fs_request_v("make_directory"@, args) == Ok::<
            FsRequestV,
            AppErrorV,
        >(FsRequestV::MakeDirectory { path }),
        !(field(args, "path"@) is Str) && (tool == "read_file"@ || tool == "write_file"@ || tool
            == "list_directory"@ || tool == "make_directory"@) ==> fs_request_v(tool, args) matches Err(
            AppErrorV::Io(IoErrorKind::InvalidInput, _),
        ),
{
    reveal_strlit("list_directory");
    reveal_strlit("read_file");
    reveal_strlit("write_file");
    reveal_strlit("make_directory");
    assert("make_directory"@.len() != "read_file"@.len());
    assert("make_directory"@.len() != "write_file"@.len());
    assert("make_directory"@[0] != "list_directory"@[0]);
}

fn required_str(arguments: &Json, key: &str, message: &str) -> (r: Result<String, AppError>)
    ensures
        match as_str(field(arguments@, key@)) {
            Some(s) => r matches Ok(x) && x@ == s,
            None => r matches Err(e) && e@ == missing_field(message@),
        },
{
    let v = get_field(arguments, key);
    match get_str(&v) {
        Some(s) => Ok(s),
        None => Err(io_error(IoErrorKind::InvalidInput, message)),
    }
}

impl FileSystemSkillAdapter {
    pub fn new() -> (r: Self) {
        FileSystemSkillAdapter
    }

    /// The skill's name, description, keywords and tools.
    pub fn get_skill_definition(&self) -> (r: SkillDefinition)
        ensures
            r@ == filesystem_skill_v(),
    {
        skill(
            "filesystem",
            "Operações de arquivos e diretórios locais.",
            strs5("filesystem", "arquivo", "diretório", "read", "write"),
            self.get_tool_definitions(),
        )
    }

    /// The four tools: read a file, write a file, list a directory, make a directory.
    pub fn get_tool_definitions(&self) -> (r: Vec<Tool>)
        ensures
            tools_view(r@) == filesystem_tools_v(),
    {
        let read = function_tool(
            "read_file",
            "Lê o conteúdo de um arquivo local.",
            object_schema(
                members1("path", prop("string", "Caminho do arquivo local a ser lido.")),
                strs1("path"),
            ),
        );
        let write = function_tool(
            "write_file",
            "Escreve conteúdo em um arquivo local.",
            object_schema(
                members2(
                    "path",
                    prop("string", "Caminho do arquivo local a ser escrito."),
                    "content",
                    prop("string", "Conteúdo a ser gravado no arquivo."),
                ),
                strs2("path", "content"),
            ),
        );
        let list = function_tool(
            "list_directory",
            "Lista arquivos e diretórios de um caminho especificado.",
            object_schema(
                members2(
                    "path",
                    prop("string", "Caminho do diretório a listar."),
                    "recursive",
                    prop("boolean", "Se deve listar recursivamente."),
                ),
                strs1("path"),
            ),
        );
        let make = function_tool(
            "make_directory",
            "Cria um diretório local, incluindo ancestrais.",
            object_schema(
                members1("path", prop("string", "Caminho do diretório a ser criado.")),
                strs1("path"),
            ),
        );
        tools4(read, write, list, make)
    }

    /// The operation that `tool_name` asks for with `arguments`, or the error for a
    /// missing argument or an unknown tool.
    pub fn execute(&self, tool_name: &str, arguments: &Json) -> (r: Result<FsRequest, AppError>)
        ensures
            request_view(r) == fs_request_v(tool_name@, arguments@),
    {
        if str_eq(tool_name, "read_file") {
            let path = required_str(arguments, "path", "O campo 'path' é obrigatório para read_file.")?;
            Ok(FsRequest::ReadFile { path })
        } else if str_eq(tool_name, "write_file") {
            let path = required_str(arguments, "path", "O campo 'path' é obrigatório para write_file.")?;
            let content = required_str(
                arguments,
                "content",
                "O campo 'content' é obrigatório para write_file.",
            )?;
            Ok(FsRequest::WriteFile { path, content })
        } else if str_eq(tool_name, "list_directory") {
            let path = required_str(
                arguments,
                "path",
                "O campo 'path' é obrigatório para list_directory.",
            )?;
            let r = get_field(arguments, "recursive");
            let recursive = match get_bool(&r) {
                Some(b) => b,
                None => false,
            };
            Ok(FsRequest::ListDirectory { path, recursive })
        } else if str_eq(tool_name, "make_directory") {
            let path = required_str(
                arguments,
                "path",
                "O campo 'path' é obrigatório para make_directory.",
            )?;
            Ok(FsRequest::MakeDirectory { path })
        } else {
            let mut m = "Tool '".to_owned();
            append_str(&mut m, tool_name);
            append_str(&mut m, "' não encontrada no skill filesystem.");
            Err(AppError::IoError(IoErrorKind::NotFound, m))
        }
    }
}

/// An entry of a directory listing: its path and whether it is a directory.
#[derive(Debug)]
pub struct DirEntry {
    pub path: String,
    pub is_dir: bool,
}

pub open spec fn entry_v(p: Seq<char>, is_dir: bool) -> JsonV {
    JsonV::Object(seq![("path"@, JsonV::Str(p)), ("is_dir"@, JsonV::Bool(is_dir))])
}

pub open spec fn entries_v(es: Seq<DirEntry>) -> Seq<JsonV> {
    es.map_values(|e: DirEntry| entry_v(e.path@, e.is_dir))
}

/// `{"path": path, "content": content}`.
pub fn read_file_response(path: &String, content: String) -> (r: Json)
    ensures
        r@ == read_answer_v(path@, content@),
{
    jobject(members2("path", jstring(path), "content", Json::Str(content)))
}

/// `{"path": path, "written": true}`.
pub fn write_file_response(path: &String) -> (r: Json)
    ensures
        r@ == JsonV::Object(seq![("path"@, JsonV::Str(path@)), ("written"@, JsonV::Bool(true))]),
{
    jobject(members2("path", jstring(path), "written", Json::Bool(true)))
}

/// `{"path": path, "created": true}`.
pub fn make_directory_response(path: &String) -> (r: Json)
    ensures
        r@ == JsonV::Object(seq![("path"@, JsonV::Str(path@)), ("created"@, JsonV::Bool(true))]),
{
    jobject(members2("path", jstring(path), "created", Json::Bool(true)))
}

/// `{"path": path, "recursive": recursive, "entries": [{"path", "is_dir"}, ...]}`,
/// the entries in the order found.
pub fn list_directory_response(path: &String, recursive: bool, entries: &Vec<DirEntry>) -> (r: Json)
    ensures
        r@ == JsonV::Object(
            seq![
                ("path"@, JsonV::Str(path@)),
                ("recursive"@, JsonV::Bool(recursive)),
                ("entries"@, JsonV::Array(entries_v(entries@))),
            ],
        ),
{
    let mut items: Vec<Json> = Vec::new();
    let mut i: usize = 0;
    while i < entries.len()
        invariant
            i <= entries@.len(),
            items@.len() == i,
            forall|k: int| 0 <= k < i ==> #[trigger] items@[k]@ == entry_v(entries@[k].path@, entries@[k].is_dir),
        decreases entries@.len() - i,
    {
        let e = &entries[i];
        items.push(jobject(members2("path", jstring(&e.path), "is_dir", Json::Bool(e.is_dir))));
        i = i + 1;
    }
    assert(view_jsons(items@) =~= entries_v(entries@));
    jobject(members3("path", jstring(path), "recursive", Json::Bool(recursive), "entries", jarray(items)))
}

} // verus!
