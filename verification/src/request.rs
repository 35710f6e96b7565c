use vstd::prelude::*;

use crate::container::{self, Method, RequestVariable, RequestVariableView};
use crate::emit::{build_params, spec_build_pairs};
use crate::fields::{self, FieldDef, FieldVariable, FieldsVariable};
use crate::grammar::{Attr, DescriptorError};
use crate::schema::Request;
use crate::LarkResult;

verus! {

/// The whole compiled descriptor of one request type: the container-level
/// descriptor and the three role lists.  Built once per type, then read by
/// the generic execution pipeline.
#[derive(Debug)]
pub struct CompiledRequest {
    pub var: RequestVariable,
    pub headers: FieldsVariable,
    pub paths: FieldsVariable,
    pub queries: FieldsVariable,
}

/// A compiled container descriptor always carries its three mandatory
/// pieces.
pub open spec fn spec_compiled_wf(v: RequestVariableView) -> bool {
    v.method is Some && v.address is Some && v.response is Some
}

/// Compiles a request type's annotations — the struct-level list and the
/// per-field definitions — into its descriptor.  The container annotation
/// is parsed first; a container error wins over a field error.
pub fn derive(attrs: &Vec<Attr>, field_defs: &Vec<FieldDef>) -> (r: Result<
    CompiledRequest,
    DescriptorError,
>)
    ensures
        match r {
            Ok(c) => container::spec_container_parse(attrs.deep_view()) == Ok::<
                _,
                crate::grammar::DescriptorErrorView,
            >(c.var@) && fields::spec_fields_parse(field_defs.deep_view()) == Ok::<
                _,
                crate::grammar::DescriptorErrorView,
            >((c.headers@, c.paths@, c.queries@)) && spec_compiled_wf(c.var@),
            Err(e) => container::spec_container_parse(attrs.deep_view()) == Err::<
                RequestVariableView,
                _,
            >(e@) || (container::spec_container_parse(attrs.deep_view()) is Ok
                && fields::spec_fields_parse(field_defs.deep_view()) == Err::<
                (Seq<crate::fields::FieldVariableView>, Seq<crate::fields::FieldVariableView>, Seq<
                    crate::fields::FieldVariableView,
                >),
                _,
            >(e@)),
        },
{
    let var = match container::parse(attrs) {
        Err(e) => {
            return Err(e);
        },
        Ok(v) => v,
    };
    let (headers, paths, queries) = match fields::parse(field_defs) {
        Err(e) => {
            return Err(e);
        },
        Ok(t) => t,
    };
    Ok(CompiledRequest { var, headers, paths, queries })
}

/// `None` when no field carries the role, else the emitted pairs.
pub open spec fn spec_params_opt(
    fields: Seq<crate::fields::FieldVariableView>,
    values: Seq<(Seq<char>, Option<Seq<char>>)>,
) -> Option<Seq<(Seq<char>, Seq<char>)>> {
    if fields.len() == 0 {
        None
    } else {
        Some(spec_build_pairs(fields, values))
    }
}

/// A compiled descriptor bound to one request value: the value's serialized
/// fields and its encoded body.  The generic interpreter of the request
/// contract.
#[derive(Debug)]
pub struct BoundRequest {
    method: Method,
    address: String,
    has_body: bool,
    headers: Vec<FieldVariable>,
    paths: Vec<FieldVariable>,
    queries: Vec<FieldVariable>,
    values: Vec<(String, Option<String>)>,
    encoded: Vec<u8>,
}

impl BoundRequest {
    /// Binds a compiled descriptor to one request value, given as the pairs
    /// of field name and serialized value — each the output of the field's
    /// serializer, the custom one where `serialize_with` named it — and the
    /// value's whole encoding for the body.
    pub fn bind(
        compiled: CompiledRequest,
        values: Vec<(String, Option<String>)>,
        encoded: Vec<u8>,
    ) -> (r: BoundRequest)
        requires
            spec_compiled_wf(compiled.var@),
        ensures
            r.spec_method() == compiled.var@.method->Some_0,
            r.spec_address() == compiled.var@.address->Some_0,
            r.spec_path_params() == spec_params_opt(compiled.paths@, values.deep_view()),
            r.spec_query_params() == spec_params_opt(compiled.queries@, values.deep_view()),
            r.spec_headers() == spec_params_opt(compiled.headers@, values.deep_view()),
            r.spec_request_body() == (if RequestVariable::spec_body(compiled.var@) {
                Some(encoded@)
            } else {
                None
            }),
    {
        let method = compiled.var.method();
        let address = compiled.var.address().clone();
        let has_body = compiled.var.body();
        BoundRequest {
            method,
            address,
            has_body,
            headers: compiled.headers.0,
            paths: compiled.paths.0,
            queries: compiled.queries.0,
            values,
            encoded,
        }
    }
}

impl Request for BoundRequest {
    closed spec fn spec_method(&self) -> Method {
        self.method
    }

    closed spec fn spec_address(&self) -> Seq<char> {
        self.address@
    }

    closed spec fn spec_path_params(&self) -> Option<Seq<(Seq<char>, Seq<char>)>> {
        spec_params_opt(self.paths.deep_view(), self.values.deep_view())
    }

    closed spec fn spec_query_params(&self) -> Option<Seq<(Seq<char>, Seq<char>)>> {
        spec_params_opt(self.queries.deep_view(), self.values.deep_view())
    }

    closed spec fn spec_headers(&self) -> Option<Seq<(Seq<char>, Seq<char>)>> {
        spec_params_opt(self.headers.deep_view(), self.values.deep_view())
    }

    closed spec fn spec_request_body(&self) -> Option<Seq<u8>> {
        if self.has_body {
            Some(self.encoded@)
        } else {
            None
        }
    }

    fn method(&self) -> Method {
        self.method
    }

    fn address(&self) -> String {
        self.address.clone()
    }

    fn path_params(&self) -> Option<Vec<(String, String)>> {
        build_params(&self.paths, &self.values)
    }

    fn query_params(&self) -> Option<Vec<(String, String)>> {
        build_params(&self.queries, &self.values)
    }

    fn headers(&self) -> Option<Vec<(String, String)>> {
        build_params(&self.headers, &self.values)
    }

    /// The bound request's body accessor always succeeds: its encoding was
    /// supplied up front, so beside the trait's guarantee the result is
    /// `Ok` of exactly the resolved body.
    fn body(&self) -> (r: LarkResult<Option<Vec<u8>>>)
        ensures
            r is Ok,
    {
        if self.has_body {
            let b = self.encoded.clone();
            proof {
                assert(b@ =~= self.encoded@);
            }
            Ok(Some(b))
        } else {
            Ok(None)
        }
    }
}

} // verus!
