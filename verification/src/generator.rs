//! The service code generator: from an abstract service description it
//! emits, deterministically, the server capability trait, a delegation impl
//! for shared-ownership handles, the client capability trait, and the
//! concrete client adapter that calls each method's canonical path.
//!
//! The emitted text is specified character for character, and the client
//! adapter's request path is produced by the same definition the server's
//! router matches against, so path agreement holds by construction.

use crate::server::spec_method_path;
use vstd::prelude::*;

verus! {

/// One method of a service: its identifier form, its wire name, and its
/// input and output message types.
pub struct MethodDescription {
    pub name: String,
    pub proto_name: String,
    pub input_type: String,
    pub output_type: String,
}

/// A service to generate code for: identifier name, protocol package and
/// name, and the ordered methods.
pub struct ServiceDescription {
    pub name: String,
    pub package: String,
    pub proto_name: String,
    pub methods: Vec<MethodDescription>,
}

impl ServiceDescription {
    /// The fully qualified protocol name, `package.Service`.
    pub open spec fn spec_fqn(&self) -> Seq<char> {
        self.package@ + "."@ + self.proto_name@
    }

    /// Wire names are unique within a service.
    pub open spec fn wf(&self) -> bool {
        forall|i: int, j: int|
            0 <= i < j < self.methods@.len() ==> self.methods@[i].proto_name@
                != self.methods@[j].proto_name@
    }

    /// Builds the fully qualified protocol name.
    pub fn fqn(&self) -> (r: String)
        ensures
            r@ == self.spec_fqn(),
    {
        let mut s = self.package.clone();
        s.append(".");
        s.append(self.proto_name.as_str());
        s
    }
}

/// One line of the server trait: an async operation from context and input
/// to the output or the trait's own error type.
pub open spec fn spec_server_trait_method(m: MethodDescription) -> Seq<char> {
    "    async fn "@ + m.name@ + "(&self, ctx: twirp::Context, req: "@ + m.input_type@
        + ") -> Result<"@ + m.output_type@ + ", Self::Error>;\n"@
}

/// The server trait methods, in order.
pub open spec fn spec_server_trait_methods(ms: Seq<MethodDescription>) -> Seq<char>
    decreases ms.len(),
{
    if ms.len() == 0 {
        Seq::empty()
    } else {
        spec_server_trait_methods(ms.drop_last()) + spec_server_trait_method(ms.last())
    }
}

/// The server capability trait with one operation per method and an
/// implementer-chosen error type.
pub open spec fn spec_server_trait(s: ServiceDescription) -> Seq<char> {
    "#[twirp::async_trait::async_trait]\npub trait "@ + s.name@ + " {\n    type Error;\n"@
        + spec_server_trait_methods(s.methods@) + "}\n"@
}

/// One forwarded method of the delegation impl.
pub open spec fn spec_arc_impl_method(m: MethodDescription) -> Seq<char> {
    "    async fn "@ + m.name@ + "(&self, ctx: twirp::Context, req: "@ + m.input_type@
        + ") -> Result<"@ + m.output_type@ + ", Self::Error> {\n        T::"@ + m.name@
        + "(&*self, ctx, req).await\n    }\n"@
}

/// The delegation impl's methods, in order.
pub open spec fn spec_arc_impl_methods(ms: Seq<MethodDescription>) -> Seq<char>
    decreases ms.len(),
{
    if ms.len() == 0 {
        Seq::empty()
    } else {
        spec_arc_impl_methods(ms.drop_last()) + spec_arc_impl_method(ms.last())
    }
}

/// The delegation rule: a shared-ownership handle to an implementation also
/// implements the trait, forwarding every call unchanged.
pub open spec fn spec_arc_impl(s: ServiceDescription) -> Seq<char> {
    "#[twirp::async_trait::async_trait]\nimpl<T> "@ + s.name@
        + " for std::sync::Arc<T>\nwhere\n    T: "@ + s.name@
        + " + Sync + Send\n{\n    type Error = T::Error;\n\n"@ + spec_arc_impl_methods(s.methods@)
        + "}\n"@
}

/// One line of the client trait: the operation returns the fixed client
/// error type, since client calls can also fail in transport.
pub open spec fn spec_client_trait_method(m: MethodDescription) -> Seq<char> {
    "    async fn "@ + m.name@ + "(&self, req: "@ + m.input_type@ + ") -> Result<"@ + m.output_type@
        + ", twirp::ClientError>;\n"@
}

/// The client trait methods, in order.
pub open spec fn spec_client_trait_methods(ms: Seq<MethodDescription>) -> Seq<char>
    decreases ms.len(),
{
    if ms.len() == 0 {
        Seq::empty()
    } else {
        spec_client_trait_methods(ms.drop_last()) + spec_client_trait_method(ms.last())
    }
}

/// The client capability trait.
pub open spec fn spec_client_trait(s: ServiceDescription) -> Seq<char> {
    "#[twirp::async_trait::async_trait]\npub trait "@ + s.name@ + "Client: Send + Sync {\n"@
        + spec_client_trait_methods(s.methods@) + "}\n"@
}

/// The path the generated client requests for one method: exactly the
/// canonical method path under the service's fully qualified name.
pub open spec fn spec_client_path(fqn: Seq<char>, m: MethodDescription) -> Seq<char> {
    spec_method_path(fqn, m.proto_name@)
}

/// One method of the concrete client adapter: it invokes the generic
/// remote-call primitive on the method's canonical path.
pub open spec fn spec_client_impl_method(fqn: Seq<char>, m: MethodDescription) -> Seq<char> {
    "    async fn "@ + m.name@ + "(&self, req: "@ + m.input_type@ + ") -> Result<"@ + m.output_type@
        + ", twirp::ClientError> {\n    self.request(\""@ + spec_client_path(fqn, m)
        + "\", req).await\n    }\n"@
}

/// The client adapter's methods, in order.
pub open spec fn spec_client_impl_methods(fqn: Seq<char>, ms: Seq<MethodDescription>) -> Seq<char>
    decreases ms.len(),
{
    if ms.len() == 0 {
        Seq::empty()
    } else {
        spec_client_impl_methods(fqn, ms.drop_last()) + spec_client_impl_method(fqn, ms.last())
    }
}

/// The concrete client adapter.
pub open spec fn spec_client_impl(s: ServiceDescription) -> Seq<char> {
    "#[twirp::async_trait::async_trait]\nimpl "@ + s.name@
        + "Client for twirp::client::Client {\n"@ + spec_client_impl_methods(
        s.spec_fqn(),
        s.methods@,
    ) + "}\n"@
}

/// Everything the generator emits for one service, in order: server trait,
/// delegation impl, client trait, client adapter.
pub open spec fn spec_generated(s: ServiceDescription) -> Seq<char> {
    "\n"@ + spec_server_trait(s) + spec_arc_impl(s) + "\n"@ + spec_client_trait(s)
        + spec_client_impl(s)
}

/// Law: client/server path agreement. For every method of a service, the
/// path the generated client requests is exactly
/// `{fully_qualified_name}/{wire_name}`, and the path the server routes for
/// the same method is the routing prefix followed by a slash and exactly
/// that client path.
pub proof fn lemma_path_agreement(prefix: Seq<char>, s: ServiceDescription, i: int)
    requires
        0 <= i < s.methods@.len(),
    ensures
        spec_client_path(s.spec_fqn(), s.methods@[i]) == spec_method_path(
            s.spec_fqn(),
            s.methods@[i].proto_name@,
        ),
        crate::server::spec_route_path(prefix, s.spec_fqn(), s.methods@[i].proto_name@) == prefix
            + "/"@ + spec_client_path(s.spec_fqn(), s.methods@[i]),
{
}

/// Emits Twirp server and client scaffolding for service descriptions.
pub struct ServiceGenerator;

/// The generator, boxed for registration with a build-time code generation
/// pass.
pub fn service_generator() -> (r: Box<ServiceGenerator>)
    ensures
        *r == (ServiceGenerator {  }),
{
    Box::new(ServiceGenerator {})
}

fn emit_server_trait_method(m: &MethodDescription, buf: &mut String)
    ensures
        final(buf)@ == old(buf)@ + spec_server_trait_method(*m),
{
    buf.append("    async fn ");
    buf.append(m.name.as_str());
    buf.append("(&self, ctx: twirp::Context, req: ");
    buf.append(m.input_type.as_str());
    buf.append(") -> Result<");
    buf.append(m.output_type.as_str());
    buf.append(", Self::Error>;\n");
    proof {
        assert(buf@ =~= old(buf)@ + spec_server_trait_method(*m));
    }
}

fn emit_arc_impl_method(m: &MethodDescription, buf: &mut String)
    ensures
        final(buf)@ == old(buf)@ + spec_arc_impl_method(*m),
{
    buf.append("    async fn ");
    buf.append(m.name.as_str());
    buf.append("(&self, ctx: twirp::Context, req: ");
    buf.append(m.input_type.as_str());
    buf.append(") -> Result<");
    buf.append(m.output_type.as_str());
    buf.append(", Self::Error> {\n        T::");
    buf.append(m.name.as_str());
    buf.append("(&*self, ctx, req).await\n    }\n");
    proof {
        assert(buf@ =~= old(buf)@ + spec_arc_impl_method(*m));
    }
}

fn emit_client_trait_method(m: &MethodDescription, buf: &mut String)
    ensures
        final(buf)@ == old(buf)@ + spec_client_trait_method(*m),
{
    buf.append("    async fn ");
    buf.append(m.name.as_str());
    buf.append("(&self, req: ");
    buf.append(m.input_type.as_str());
    buf.append(") -> Result<");
    buf.append(m.output_type.as_str());
    buf.append(", twirp::ClientError>;\n");
    proof {
        assert(buf@ =~= old(buf)@ + spec_client_trait_method(*m));
    }
}

fn emit_client_impl_method(fqn: &String, m: &MethodDescription, buf: &mut String)
    ensures
        final(buf)@ == old(buf)@ + spec_client_impl_method(fqn@, *m),
{
    buf.append("    async fn ");
    buf.append(m.name.as_str());
    buf.append("(&self, req: ");
    buf.append(m.input_type.as_str());
    buf.append(") -> Result<");
    buf.append(m.output_type.as_str());
    buf.append(", twirp::ClientError> {\n    self.request(\"");
    buf.append(fqn.as_str());
    buf.append("/");
    buf.append(m.proto_name.as_str());
    buf.append("\", req).await\n    }\n");
    proof {
        assert(buf@ =~= old(buf)@ + spec_client_impl_method(fqn@, *m));
    }
}

fn emit_server_trait(service: &ServiceDescription, buf: &mut String)
    ensures
        final(buf)@ == old(buf)@ + spec_server_trait(*service),
{
    buf.append("#[twirp::async_trait::async_trait]\npub trait ");
    buf.append(service.name.as_str());
    buf.append(" {\n    type Error;\n");
    let ghost p = buf@;
    let n = service.methods.len();
    let mut i: usize = 0;
    #[verifier::loop_isolation(false)]
    while i < n
        invariant
            n == service.methods@.len(),
            i <= n,
            buf@ == p + spec_server_trait_methods(service.methods@.take(i as int)),
        decreases n - i,
    {
        emit_server_trait_method(&service.methods[i], buf);
        proof {
            assert(service.methods@.take(i + 1).drop_last() =~= service.methods@.take(i as int));
            assert(service.methods@.take(i + 1).last() == service.methods@[i as int]);
        }
        i = i + 1;
    }
    buf.append("}\n");
    proof {
        assert(service.methods@.take(n as int) =~= service.methods@);
        assert(buf@ =~= old(buf)@ + spec_server_trait(*service));
    }
}

fn emit_arc_impl(service: &ServiceDescription, buf: &mut String)
    ensures
        final(buf)@ == old(buf)@ + spec_arc_impl(*service),
{
    buf.append("#[twirp::async_trait::async_trait]\nimpl<T> ");
    buf.append(service.name.as_str());
    buf.append(" for std::sync::Arc<T>\nwhere\n    T: ");
    buf.append(service.name.as_str());
    buf.append(" + Sync + Send\n{\n    type Error = T::Error;\n\n");
    let ghost p = buf@;
    let n = service.methods.len();
    let mut i: usize = 0;
    #[verifier::loop_isolation(false)]
    while i < n
        invariant
            n == service.methods@.len(),
            i <= n,
            buf@ == p + spec_arc_impl_methods(service.methods@.take(i as int)),
        decreases n - i,
    {
        emit_arc_impl_method(&service.methods[i], buf);
        proof {
            assert(service.methods@.take(i + 1).drop_last() =~= service.methods@.take(i as int));
            assert(service.methods@.take(i + 1).last() == service.methods@[i as int]);
        }
        i = i + 1;
    }
    buf.append("}\n");
    proof {
        assert(service.methods@.take(n as int) =~= service.methods@);
        assert(buf@ =~= old(buf)@ + spec_arc_impl(*service));
    }
}

fn emit_client_trait(service: &ServiceDescription, buf: &mut String)
    ensures
        final(buf)@ == old(buf)@ + spec_client_trait(*service),
{
    buf.append("#[twirp::async_trait::async_trait]\npub trait ");
    buf.append(service.name.as_str());
    buf.append("Client: Send + Sync {\n");
    let ghost p = buf@;
    let n = service.methods.len();
    let mut i: usize = 0;
    #[verifier::loop_isolation(false)]
    while i < n
        invariant
            n == service.methods@.len(),
            i <= n,
            buf@ == p + spec_client_trait_methods(service.methods@.take(i as int)),
        decreases n - i,
    {
        emit_client_trait_method(&service.methods[i], buf);
        proof {
            assert(service.methods@.take(i + 1).drop_last() =~= service.methods@.take(i as int));
            assert(service.methods@.take(i + 1).last() == service.methods@[i as int]);
        }
        i = i + 1;
    }
    buf.append("}\n");
    proof {
        assert(service.methods@.take(n as int) =~= service.methods@);
        assert(buf@ =~= old(buf)@ + spec_client_trait(*service));
    }
}

fn emit_client_impl(service: &ServiceDescription, buf: &mut String)
    ensures
        final(buf)@ == old(buf)@ + spec_client_impl(*service),
{
    let fqn = service.fqn();
    buf.append("#[twirp::async_trait::async_trait]\nimpl ");
    buf.append(service.name.as_str());
    buf.append("Client for twirp::client::Client {\n");
    let ghost p = buf@;
    let n = service.methods.len();
    let mut i: usize = 0;
    #[verifier::loop_isolation(false)]
    while i < n
        invariant
            n == service.methods@.len(),
            i <= n,
            fqn@ == service.spec_fqn(),
            buf@ == p + spec_client_impl_methods(
                service.spec_fqn(),
                service.methods@.take(i as int),
            ),
        decreases n - i,
    {
        emit_client_impl_method(&fqn, &service.methods[i], buf);
        proof {
            assert(service.methods@.take(i + 1).drop_last() =~= service.methods@.take(i as int));
            assert(service.methods@.take(i + 1).last() == service.methods@[i as int]);
        }
        i = i + 1;
    }
    buf.append("}\n");
    proof {
        assert(service.methods@.take(n as int) =~= service.methods@);
        assert(buf@ =~= old(buf)@ + spec_client_impl(*service));
    }
}

impl ServiceGenerator {
    /// Appends everything the service's scaffolding needs to the buffer:
    /// the emitted text is a function of the description alone.
    pub fn generate(&mut self, service: &ServiceDescription, buf: &mut String)
        ensures
            final(buf)@ == old(buf)@ + spec_generated(*service),
    {
        buf.append("\n");
        emit_server_trait(service, buf);
        emit_arc_impl(service, buf);
        buf.append("\n");
        emit_client_trait(service, buf);
        emit_client_impl(service, buf);
        proof {
            assert(buf@ =~= old(buf)@ + spec_generated(*service));
        }
    }
}

} // verus!
