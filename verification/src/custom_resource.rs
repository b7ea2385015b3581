//! From the description of a custom resource to the values that its
//! definition is made of.
//!
//! A custom resource is declared by a group, a version and a kind, with a
//! few options. `derive` checks such a declaration and works out every name
//! and text that the generated type and its registration with the server
//! need: the type's name and derives, the API version, the singular and
//! plural names, the scope, the printer columns and the short names.

use crate::foreign::{json_of_strings, parses_as_path, plural_of, strings_to_json, to_plural};
use crate::text::{
    join, joined, lowercase, replace_all, replaced, same_text, text_of, texts, to_ascii_lowercase,
};
use vstd::prelude::*;

verus! {

/// The declaration of a custom resource.
#[derive(Debug, PartialEq, Eq)]
pub struct KubeAttrs {
    pub group: String,
    pub version: String,
    pub kind: String,
    /// The name of the generated type, where it is not the kind.
    pub kind_struct: Option<String>,
    /// The plural of the kind in lower case. It is inferred when left out.
    pub plural: Option<String>,
    pub namespaced: bool,
    /// The version of the definition API to register with.
    pub apiextensions: String,
    /// Traits to derive on the generated type besides the standard ones.
    pub derives: Vec<String>,
    /// The name of the status type, for a resource with a status.
    pub status: Option<String>,
    pub shortnames: Vec<String>,
    /// One JSON object for each printer column.
    pub printcolums: Vec<String>,
    /// The scale subresource as JSON, for a resource that has one.
    pub scale: Option<String>,
}

/// What a `KubeAttrs` holds.
pub struct KubeAttrsView {
    pub group: Seq<char>,
    pub version: Seq<char>,
    pub kind: Seq<char>,
    pub kind_struct: Option<Seq<char>>,
    pub plural: Option<Seq<char>>,
    pub namespaced: bool,
    pub apiextensions: Seq<char>,
    pub derives: Seq<Seq<char>>,
    pub status: Option<Seq<char>>,
    pub shortnames: Seq<Seq<char>>,
    pub printcolums: Seq<Seq<char>>,
    pub scale: Option<Seq<char>>,
}

impl View for KubeAttrs {
    type V = KubeAttrsView;

    open spec fn view(&self) -> KubeAttrsView {
        KubeAttrsView {
            group: self.group@,
            version: self.version@,
            kind: self.kind@,
            kind_struct: text_of(self.kind_struct),
            plural: text_of(self.plural),
            namespaced: self.namespaced,
            apiextensions: self.apiextensions@,
            derives: texts(self.derives@),
            status: text_of(self.status),
            shortnames: texts(self.shortnames@),
            printcolums: texts(self.printcolums@),
            scale: text_of(self.scale),
        }
    }
}

/// Whether a resource belongs to a namespace or to the whole cluster.
#[derive(Clone, Copy, Debug, PartialEq, Eq, Structural)]
pub enum Scope {
    Namespaced,
    Cluster,
}

impl Scope {
    /// The word by which the server knows the scope.
    pub open spec fn word(self) -> Seq<char> {
        match self {
            Scope::Namespaced => "Namespaced"@,
            Scope::Cluster => "Cluster"@,
        }
    }

    /// The word by which the server knows the scope.
    pub fn name(self) -> (word: &'static str)
        ensures
            word@ == self.word(),
    {
        match self {
            Scope::Namespaced => "Namespaced",
            Scope::Cluster => "Cluster",
        }
    }
}

/// The traits that every generated type derives.
pub open spec fn standard_derives() -> Seq<Seq<char>> {
    seq!["::serde::Serialize"@, "::serde::Deserialize"@, "Clone"@, "Debug"@]
}

/// `derives` without `Default`, in order.
pub open spec fn without_default(derives: Seq<Seq<char>>) -> Seq<Seq<char>>
    decreases derives.len(),
{
    if derives.len() == 0 {
        Seq::empty()
    } else if derives.last() == "Default"@ {
        without_default(derives.drop_last())
    } else {
        without_default(derives.drop_last()).push(derives.last())
    }
}

/// The traits to derive when `derives` are asked for: the standard ones,
/// those asked for except `Default`, and the schema where one is generated.
pub open spec fn derive_list(derives: Seq<Seq<char>>, schema_gen_enabled: bool) -> Seq<Seq<char>> {
    let asked = standard_derives() + without_default(derives);
    if schema_gen_enabled {
        asked.push("::schemars::JsonSchema"@)
    } else {
        asked
    }
}

/// The printer columns as one JSON array. For `v1beta1` the key `jsonPath`
/// is spelled `JSONPath`.
pub open spec fn printer_list(printcolums: Seq<Seq<char>>, apiextensions: Seq<char>) -> Seq<char> {
    let list = "[ "@ + joined(printcolums, ","@) + " ]"@;
    if apiextensions == "v1beta1"@ {
        replaced(list, "jsonPath"@, "JSONPath"@)
    } else {
        list
    }
}

impl KubeAttrsView {
    /// The name of the generated type: the one given, or else the kind.
    pub open spec fn struct_name(self) -> Seq<char> {
        match self.kind_struct {
            Some(name) => name,
            None => self.kind,
        }
    }

    /// Whether the generated type gets a `Default` of its own. `Default` is
    /// never derived: it is written out, so that the API version and the kind
    /// are filled in.
    pub open spec fn has_default(self) -> bool {
        self.derives.contains("Default"@)
    }

    /// Whether a schema is generated for the type: always for `v1`, where
    /// the server demands one, as long as schema support is built in.
    pub open spec fn schema_gen_enabled(self, schema: bool) -> bool {
        self.apiextensions == "v1"@ && schema
    }

    /// The traits that the generated type derives.
    pub open spec fn derive_paths(self, schema: bool) -> Seq<Seq<char>> {
        derive_list(self.derives, self.schema_gen_enabled(schema))
    }

    /// The API version: group and version with a slash between them.
    pub open spec fn api_version(self) -> Seq<char> {
        self.group + "/"@ + self.version
    }

    /// The singular name: the kind in lower case.
    pub open spec fn singular(self) -> Seq<char> {
        lowercase(self.kind)
    }

    /// The plural name: the one given, or else `inferred`.
    pub open spec fn plural_or(self, inferred: Seq<char>) -> Seq<char> {
        match self.plural {
            Some(plural) => plural,
            None => inferred,
        }
    }

    /// The printer columns as one JSON array.
    pub open spec fn printers(self) -> Seq<char> {
        printer_list(self.printcolums, self.apiextensions)
    }

    /// The scale subresource as JSON, or the empty text.
    pub open spec fn scale_code(self) -> Seq<char> {
        match self.scale {
            Some(scale) => scale,
            None => Seq::empty(),
        }
    }

    /// The scope of the resource.
    pub open spec fn scope(self) -> Scope {
        if self.namespaced {
            Scope::Namespaced
        } else {
            Scope::Cluster
        }
    }
}

/// The values that the definition of a custom resource is made of.
#[derive(Debug, PartialEq, Eq)]
pub struct CustomResource {
    /// The name of the generated type.
    pub struct_name: String,
    /// The name of the type that holds the specification.
    pub spec_name: String,
    /// The name of the status type, for a resource with a status.
    pub status: Option<String>,
    /// Whether `Default` is written out for the generated type.
    pub has_default: bool,
    /// The traits that the generated type derives.
    pub derive_paths: Vec<String>,
    /// Whether a schema is generated for the type.
    pub schema_gen_enabled: bool,
    /// The line of documentation on the generated type.
    pub docstr: String,
    pub group: String,
    pub version: String,
    pub kind: String,
    pub api_version: String,
    /// The singular name.
    pub name: String,
    pub plural: String,
    pub scope: Scope,
    /// The printer columns as one JSON array.
    pub printers: String,
    /// The scale subresource as JSON, or the empty text.
    pub scale_code: String,
    /// The version of the definition API to register with.
    pub apiextensions: String,
    /// The short names as one JSON array.
    pub short_json: String,
    /// The name under which the definition is registered.
    pub crd_meta_name: String,
}

/// What a `CustomResource` holds.
pub struct CustomResourceView {
    pub struct_name: Seq<char>,
    pub spec_name: Seq<char>,
    pub status: Option<Seq<char>>,
    pub has_default: bool,
    pub derive_paths: Seq<Seq<char>>,
    pub schema_gen_enabled: bool,
    pub docstr: Seq<char>,
    pub group: Seq<char>,
    pub version: Seq<char>,
    pub kind: Seq<char>,
    pub api_version: Seq<char>,
    pub name: Seq<char>,
    pub plural: Seq<char>,
    pub scope: Scope,
    pub printers: Seq<char>,
    pub scale_code: Seq<char>,
    pub apiextensions: Seq<char>,
    pub short_json: Seq<char>,
    pub crd_meta_name: Seq<char>,
}

impl View for CustomResource {
    type V = CustomResourceView;

    open spec fn view(&self) -> CustomResourceView {
        CustomResourceView {
            struct_name: self.struct_name@,
            spec_name: self.spec_name@,
            status: text_of(self.status),
            has_default: self.has_default,
            derive_paths: texts(self.derive_paths@),
            schema_gen_enabled: self.schema_gen_enabled,
            docstr: self.docstr@,
            group: self.group@,
            version: self.version@,
            kind: self.kind@,
            api_version: self.api_version@,
            name: self.name@,
            plural: self.plural@,
            scope: self.scope,
            printers: self.printers@,
            scale_code: self.scale_code@,
            apiextensions: self.apiextensions@,
            short_json: self.short_json@,
            crd_meta_name: self.crd_meta_name@,
        }
    }
}

impl CustomResourceView {
    /// Whether the resource has a status.
    pub open spec fn has_status(self) -> bool {
        self.status is Some
    }

    /// Whether the resource registers with version `v1` of the definition
    /// API, where printer columns, schema and subresources belong to each
    /// version of the resource. With any other version they belong to the
    /// resource as a whole.
    pub open spec fn is_v1(self) -> bool {
        self.apiextensions == "v1"@
    }
}

/// The values for the resource that `attrs` declares on the type `ident`,
/// with `plural` as its plural name and `short_json` as its short names.
pub open spec fn manifest(
    ident: Seq<char>,
    attrs: KubeAttrsView,
    schema: bool,
    plural: Seq<char>,
    short_json: Seq<char>,
) -> CustomResourceView {
    CustomResourceView {
        struct_name: attrs.struct_name(),
        spec_name: ident,
        status: attrs.status,
        has_default: attrs.has_default(),
        derive_paths: attrs.derive_paths(schema),
        schema_gen_enabled: attrs.schema_gen_enabled(schema),
        docstr: " Auto-generated derived type for "@ + ident + " via `CustomResource`"@,
        group: attrs.group,
        version: attrs.version,
        kind: attrs.kind,
        api_version: attrs.api_version(),
        name: attrs.singular(),
        plural,
        scope: attrs.scope(),
        printers: attrs.printers(),
        scale_code: attrs.scale_code(),
        apiextensions: attrs.apiextensions,
        short_json,
        crd_meta_name: plural + "."@ + attrs.group,
    }
}

/// Why a declaration is refused.
#[derive(Debug, PartialEq, Eq)]
pub enum DeriveError {
    /// The generated type would have the name of the type that declares it.
    KindIsStructName,
    /// The derive at this position is not a path.
    InvalidDerive(usize),
    /// The short names could not be written as JSON. `derive` never gives
    /// this error, since a list of strings can always be written. It is the
    /// answer of `conclude` to a caller that has no JSON to hand over.
    ShortNames,
}

impl DeriveError {
    /// The error in words.
    pub open spec fn words(self) -> Seq<char> {
        match self {
            DeriveError::KindIsStructName => {
                "#[derive(CustomResource)] `kind = \"...\"` must not equal the struct name (this is generated)"@
            },
            DeriveError::InvalidDerive(_) => "a derive must be a path"@,
            DeriveError::ShortNames => "the short names cannot be written as JSON"@,
        }
    }

    /// The error in words.
    pub fn message(&self) -> (words: String)
        ensures
            words@ == self.words(),
    {
        match self {
            DeriveError::KindIsStructName => {
                "#[derive(CustomResource)] `kind = \"...\"` must not equal the struct name (this is generated)".to_string()
            },
            DeriveError::InvalidDerive(_) => "a derive must be a path".to_string(),
            DeriveError::ShortNames => "the short names cannot be written as JSON".to_string(),
        }
    }
}

impl CustomResource {
    /// Whether the resource has a status.
    pub fn has_status(&self) -> (b: bool)
        ensures
            b == self@.has_status(),
    {
        self.status.is_some()
    }

    /// Whether the resource registers with version `v1` of the definition
    /// API.
    pub fn is_v1(&self) -> (b: bool)
        ensures
            b == self@.is_v1(),
    {
        same_text(self.apiextensions.as_str(), "v1")
    }
}

/// The version of the definition API that a declaration registers with when
/// it names none.
pub fn default_apiext() -> (v: String)
    ensures
        v@ == "v1"@,
{
    "v1".to_string()
}

impl KubeAttrs {
    /// The name of the generated type.
    pub fn struct_name(&self) -> (name: String)
        ensures
            name@ == self@.struct_name(),
    {
        match &self.kind_struct {
            Some(name) => name.clone(),
            None => self.kind.clone(),
        }
    }
}

/// The traits to derive, and whether `Default` was among those asked for.
pub fn derive_paths(derives: &Vec<String>, schema_gen_enabled: bool) -> (r: (Vec<String>, bool))
    ensures
        texts(r.0@) == derive_list(texts(derives@), schema_gen_enabled),
        r.1 == texts(derives@).contains("Default"@),
{
    let mut paths: Vec<String> = Vec::new();
    paths.push("::serde::Serialize".to_string());
    paths.push("::serde::Deserialize".to_string());
    paths.push("Clone".to_string());
    paths.push("Debug".to_string());
    let mut has_default = false;
    let mut i: usize = 0;
    while i < derives.len()
        invariant
            i <= derives.len(),
            texts(paths@) == standard_derives() + without_default(texts(derives@).take(i as int)),
            has_default == texts(derives@).take(i as int).contains("Default"@),
        decreases derives.len() - i,
    {
        let ghost before = texts(derives@).take(i as int);
        let ghost upto = texts(derives@).take(i + 1);
        let ghost old_paths = paths@;
        assert(upto.drop_last() =~= before);
        if same_text(derives[i].as_str(), "Default") {
            has_default = true;
        } else {
            paths.push(derives[i].clone());
            proof {
                assert(texts(paths@) =~= texts(old_paths).push(derives@[i as int]@));
                if upto.contains("Default"@) {
                    let j = choose|j: int| 0 <= j < upto.len() && upto[j] == "Default"@;
                    assert(before[j] == "Default"@);
                }
            }
        }
        i += 1;
    }
    assert(texts(derives@).take(i as int) =~= texts(derives@));
    if schema_gen_enabled {
        paths.push("::schemars::JsonSchema".to_string());
    }
    (paths, has_default)
}

/// The printer columns as one JSON array, spelled for the given version of
/// the definition API.
pub fn printers(printcolums: &Vec<String>, apiextensions: &str) -> (list: String)
    ensures
        list@ == printer_list(texts(printcolums@), apiextensions@),
{
    let mut list = "[ ".to_string();
    let columns = join(printcolums, ",");
    list.append(columns.as_str());
    list.append(" ]");
    if same_text(apiextensions, "v1beta1") {
        replace_all(list.as_str(), "jsonPath", "JSONPath")
    } else {
        list
    }
}

/// Puts together the values for the resource that `kube_attrs` declares on
/// the type `ident`, once its plural name and the JSON of its short names are
/// known.
pub fn assemble(
    ident: &str,
    kube_attrs: KubeAttrs,
    schema: bool,
    plural: String,
    short_json: String,
) -> (cr: CustomResource)
    ensures
        cr@ == manifest(ident@, kube_attrs@, schema, plural@, short_json@),
{
    let struct_name = kube_attrs.struct_name();
    let schema_gen_enabled = same_text(kube_attrs.apiextensions.as_str(), "v1") && schema;
    let (paths, has_default) = derive_paths(&kube_attrs.derives, schema_gen_enabled);
    let mut docstr = " Auto-generated derived type for ".to_string();
    docstr.append(ident);
    docstr.append(" via `CustomResource`");
    let mut api_version = kube_attrs.group.clone();
    api_version.append("/");
    api_version.append(kube_attrs.version.as_str());
    let name = to_ascii_lowercase(kube_attrs.kind.as_str());
    let scope = if kube_attrs.namespaced {
        Scope::Namespaced
    } else {
        Scope::Cluster
    };
    let printers = printers(&kube_attrs.printcolums, kube_attrs.apiextensions.as_str());
    let mut crd_meta_name = plural.clone();
    crd_meta_name.append(".");
    crd_meta_name.append(kube_attrs.group.as_str());
    let scale_code = match kube_attrs.scale {
        Some(scale) => scale,
        None => String::new(),
    };
    CustomResource {
        struct_name,
        spec_name: ident.to_string(),
        status: kube_attrs.status,
        has_default,
        derive_paths: paths,
        schema_gen_enabled,
        docstr,
        group: kube_attrs.group,
        version: kube_attrs.version,
        kind: kube_attrs.kind,
        api_version,
        name,
        plural,
        scope,
        printers,
        scale_code,
        apiextensions: kube_attrs.apiextensions,
        short_json,
        crd_meta_name,
    }
}

/// Whether the derive at position `i` is turned down: it is not `Default`,
/// which is never derived, and it has not been accepted as a path.
pub open spec fn rejected_at(derives: Seq<Seq<char>>, accepted: Seq<bool>, i: int) -> bool {
    0 <= i < derives.len() && derives[i] != "Default"@ && !(i < accepted.len() && accepted[i])
}

/// The position of the first derive that is turned down.
pub open spec fn first_rejected(derives: Seq<Seq<char>>, accepted: Seq<bool>) -> Option<int>
    decreases derives.len(),
{
    if derives.len() == 0 {
        None
    } else {
        match first_rejected(derives.drop_last(), accepted) {
            Some(i) => Some(i),
            None => if rejected_at(derives, accepted, derives.len() - 1) {
                Some(derives.len() - 1)
            } else {
                None
            },
        }
    }
}

/// `first_rejected` is the least position at which a derive is turned down,
/// and `None` when none is.
pub proof fn lemma_first_rejected(derives: Seq<Seq<char>>, accepted: Seq<bool>)
    ensures
        match first_rejected(derives, accepted) {
            Some(i) => rejected_at(derives, accepted, i) && forall|j: int|
                0 <= j < i ==> !rejected_at(derives, accepted, j),
            None => forall|j: int| !rejected_at(derives, accepted, j),
        },
    decreases derives.len(),
{
    if derives.len() > 0 {
        let front = derives.drop_last();
        lemma_first_rejected(front, accepted);
        assert(forall|j: int|
            0 <= j < front.len() ==> rejected_at(front, accepted, j) == rejected_at(
                derives,
                accepted,
                j,
            ));
    }
}

/// What becomes of a declaration, given what other crates have said of it:
/// for each derive whether it is a path, the plural that was inferred for
/// the kind, and the short names as JSON where they could be written.
///
/// The name is looked at first, then the derives in order, then the short
/// names.
pub open spec fn outcome(
    ident: Seq<char>,
    attrs: KubeAttrsView,
    schema: bool,
    accepted: Seq<bool>,
    inferred_plural: Seq<char>,
    short_json: Option<Seq<char>>,
) -> Result<CustomResourceView, DeriveError> {
    if ident == attrs.struct_name() {
        Err(DeriveError::KindIsStructName)
    } else if first_rejected(attrs.derives, accepted) is Some {
        Err(DeriveError::InvalidDerive(first_rejected(attrs.derives, accepted)->0 as usize))
    } else {
        match short_json {
            None => Err(DeriveError::ShortNames),
            Some(json) => Ok(
                manifest(ident, attrs, schema, attrs.plural_or(inferred_plural), json),
            ),
        }
    }
}

/// What a result of `derive` holds.
pub open spec fn result_view(r: Result<CustomResource, DeriveError>) -> Result<
    CustomResourceView,
    DeriveError,
> {
    match r {
        Ok(cr) => Ok(cr@),
        Err(e) => Err(e),
    }
}

/// The position of the first derive, other than `Default`, that has not
/// been accepted as a path. A derive without a verdict counts as not
/// accepted.
pub fn find_rejected(derives: &Vec<String>, accepted: &Vec<bool>) -> (at: Option<usize>)
    ensures
        at is Some <==> first_rejected(texts(derives@), accepted@) is Some,
        at matches Some(i) ==> first_rejected(texts(derives@), accepted@) == Some(i as int),
{
    let mut i: usize = 0;
    while i < derives.len()
        invariant
            i <= derives.len(),
            forall|j: int| 0 <= j < i ==> !rejected_at(texts(derives@), accepted@, j),
        decreases derives.len() - i,
    {
        let ok = i < accepted.len() && accepted[i];
        if !ok && !same_text(derives[i].as_str(), "Default") {
            proof {
                assert(rejected_at(texts(derives@), accepted@, i as int));
                lemma_first_rejected(texts(derives@), accepted@);
            }
            return Some(i);
        }
        i += 1;
    }
    proof {
        lemma_first_rejected(texts(derives@), accepted@);
    }
    None
}

/// Decides what becomes of the declaration `kube_attrs` on the type
/// `ident`, given what other crates have said of it.
pub fn conclude(
    ident: &str,
    kube_attrs: KubeAttrs,
    schema: bool,
    accepted: &Vec<bool>,
    inferred_plural: String,
    short_json: Option<String>,
) -> (r: Result<CustomResource, DeriveError>)
    ensures
        result_view(r) == outcome(
            ident@,
            kube_attrs@,
            schema,
            accepted@,
            inferred_plural@,
            text_of(short_json),
        ),
{
    let struct_name = kube_attrs.struct_name();
    if same_text(ident, struct_name.as_str()) {
        return Err(DeriveError::KindIsStructName);
    }
    match find_rejected(&kube_attrs.derives, accepted) {
        Some(i) => {
            return Err(DeriveError::InvalidDerive(i));
        },
        None => {},
    }
    let plural = match &kube_attrs.plural {
        Some(plural) => plural.clone(),
        None => inferred_plural,
    };
    match short_json {
        Some(json) => Ok(assemble(ident, kube_attrs, schema, plural, json)),
        None => Err(DeriveError::ShortNames),
    }
}

/// For each derive, whether it is accepted as a path.
pub fn path_verdicts(derives: &Vec<String>) -> (accepted: Vec<bool>)
    ensures
        accepted.len() == derives.len(),
{
    let mut accepted: Vec<bool> = Vec::new();
    let mut i: usize = 0;
    while i < derives.len()
        invariant
            i <= derives.len(),
            accepted.len() == i,
        decreases derives.len() - i,
    {
        accepted.push(parses_as_path(derives[i].as_str()));
        i += 1;
    }
    accepted
}

/// Checks the declaration `kube_attrs` on the type `ident` and works out the
/// values that the resource's definition is made of. `schema` says whether
/// schema support is built in.
///
/// The declaration is refused when the generated type would take the name
/// of the declaring type, and when a derive other than `Default` is not a
/// path. Whether a text is a path is for another crate to say, so a
/// declaration that asks for no derive but `Default` is accepted whenever its
/// name is free. The short names can always be written as JSON. `conclude`
/// states what follows from each answer of the other crates.
pub fn derive(ident: &str, kube_attrs: KubeAttrs, schema: bool) -> (r: Result<
    CustomResource,
    DeriveError,
>)
    ensures
        ident@ == kube_attrs@.struct_name() <==> r == Err::<CustomResource, DeriveError>(
            DeriveError::KindIsStructName,
        ),
        r matches Err(DeriveError::InvalidDerive(i)) ==> i < kube_attrs@.derives.len()
            && kube_attrs@.derives[i as int] != "Default"@,
        !(r matches Err(DeriveError::ShortNames)),
        ident@ != kube_attrs@.struct_name() && (forall|i: int|
            0 <= i < kube_attrs@.derives.len() ==> #[trigger] kube_attrs@.derives[i]
                == "Default"@) ==> r is Ok,
        r matches Ok(cr) ==> cr@ == manifest(
            ident@,
            kube_attrs@,
            schema,
            kube_attrs@.plural_or(plural_of(kube_attrs@.singular())),
            json_of_strings(kube_attrs@.shortnames),
        ),
{
    let accepted = path_verdicts(&kube_attrs.derives);
    let name = to_ascii_lowercase(kube_attrs.kind.as_str());
    let inferred_plural = to_plural(name.as_str());
    let short_json = match strings_to_json(&kube_attrs.shortnames) {
        Ok(json) => Some(json),
        Err(_) => None,
    };
    proof {
        lemma_first_rejected(kube_attrs@.derives, accepted@);
    }
    conclude(ident, kube_attrs, schema, &accepted, inferred_plural, short_json)
}

} // verus!
