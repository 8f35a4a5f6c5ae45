use vstd::prelude::*;

verus! {

/// The comments attached to a protobuf item, line by line.
#[derive(Debug, Clone)]
pub struct Comments {
    /// Blocks of comments that stand apart, before the item.
    pub leading_detached: Vec<Vec<String>>,
    /// Comments right before the item.
    pub leading: Vec<String>,
    /// Comments right after the item.
    pub trailing: Vec<String>,
}

/// One RPC method of a protobuf service.
#[derive(Debug, Clone)]
pub struct Method {
    /// The method's name in Rust style.
    pub name: String,
    /// The method's name as written in the .proto file.
    pub proto_name: String,
    /// The method's comments.
    pub comments: Comments,
    /// The Rust type of the request.
    pub input_type: String,
    /// The Rust type of the response.
    pub output_type: String,
}

/// A protobuf service: a named group of RPC methods in a package.
#[derive(Debug, Clone)]
pub struct Service {
    /// The service's name in Rust style.
    pub name: String,
    /// The service's name as written in the .proto file.
    pub proto_name: String,
    /// The protobuf package that holds the service.
    pub package: String,
    /// The service's comments.
    pub comments: Comments,
    /// The service's methods, in the order of the .proto file.
    pub methods: Vec<Method>,
}

/// The doc-comment text that `prost_build::Comments::append_with_indent`
/// writes for the given comment lines at the given indentation level.
pub uninterp spec fn comment_lines_text(
    leading_detached: Seq<Seq<Seq<char>>>,
    leading: Seq<Seq<char>>,
    trailing: Seq<Seq<char>>,
    indent: u8,
) -> Seq<char>;

/// The doc-comment text of `c` at the given indentation level.
pub open spec fn comments_text(c: Comments, indent: u8) -> Seq<char> {
    comment_lines_text(
        c.leading_detached.deep_view(),
        c.leading.deep_view(),
        c.trailing.deep_view(),
        indent,
    )
}

/// Appends the comments as Rust doc comments through
/// `prost_build::Comments::append_with_indent`. That function only pushes
/// onto `buf`, and what it pushes is a function of the comment lines and
/// the indentation alone (its line sanitizing is not restated here, only
/// named); with no comment line at all it pushes nothing.
#[verifier::external_body]
fn append_comments(comments: &Comments, indent: u8, buf: &mut String)
    ensures
        final(buf)@ == old(buf)@ + comment_lines_text(
            comments.leading_detached.deep_view(),
            comments.leading.deep_view(),
            comments.trailing.deep_view(),
            indent,
        ),
        (comments.leading_detached.len() == 0 && comments.leading.len() == 0
            && comments.trailing.len() == 0) ==> final(buf)@ == old(buf)@,
{
    let outside = prost_build::Comments {
        leading_detached: comments.leading_detached.clone(),
        leading: comments.leading.clone(),
        trailing: comments.trailing.clone(),
    };
    outside.append_with_indent(indent, buf);
}

/// `c` holds no comment line at all.
pub open spec fn has_no_comments(c: Comments) -> bool {
    &&& c.leading_detached@.len() == 0
    &&& c.leading@.len() == 0
    &&& c.trailing@.len() == 0
}

/// Every method of `s` that holds no comment line gets no comment text.
pub open spec fn uncommented_methods_silent(s: Service) -> bool {
    forall|i: int|
        #![trigger s.methods@[i]]
        0 <= i < s.methods@.len() && has_no_comments(s.methods@[i].comments)
            ==> comments_text(s.methods@[i].comments, 1) == Seq::<char>::empty()
}

/// The concatenation of `f(m)` over the methods `ms`, in order.
pub open spec fn concat_each(ms: Seq<Method>, f: spec_fn(Method) -> Seq<char>) -> Seq<char>
    decreases ms.len(),
{
    if ms.len() == 0 {
        Seq::empty()
    } else {
        concat_each(ms.drop_last(), f) + f(ms.last())
    }
}

/// The name of the generated server type of a service.
pub open spec fn server_type_text(s: Service) -> Seq<char> {
    s.name@ + "Server"@
}

/// The return type of the generated trait method for an RPC method.
pub open spec fn rpc_return_text(m: Method) -> Seq<char> {
    "Result<"@ + m.output_type@ + ", ::prost_yat::Error>"@
}

/// The declaration of one RPC method in the generated service trait.
pub open spec fn trait_method_text(m: Method) -> Seq<char> {
    "\n"@ + comments_text(m.comments, 1) + "    fn "@ + m.name@ + "(&self, r: "@ + m.input_type@
        + ") -> "@ + rpc_return_text(m) + ";\n"@
}

/// `trait_method_text` as a function value.
pub open spec fn trait_method_fn() -> spec_fn(Method) -> Seq<char> {
    |m: Method| trait_method_text(m)
}

/// The generated service trait: one method declaration per RPC method.
pub open spec fn trait_text(s: Service) -> Seq<char> {
    comments_text(s.comments, 0) + "pub trait "@ + s.name@ + " {"@
        + concat_each(s.methods@, trait_method_fn()) + "}\n\n"@
}

/// The generated constructor of the server type.
pub open spec fn new_fn_text(s: Service) -> Seq<char> {
    "\n"@ + "  pub fn new(service_impl: S) -> "@ + server_type_text(s) + "<S> {\n"@ + "    "@
        + server_type_text(s) + " {\n"@ + "      service_impl: service_impl,\n"@ + "    }\n"@
        + "  }\n"@
}

/// The generated `listen` function, the same for every service.
pub open spec fn listen_fn_text() -> Seq<char> {
    "\n"@ + "  pub fn listen(self, addr: ::std::net::SocketAddr) {\n"@
        + "    let service_impl = ::std::sync::Arc::new(self.service_impl);\n"@
        + "    ::hyper::rt::run(::futures::future::lazy(move || {\n"@
        + "      let server = ::hyper::Server::bind(&addr)\n"@ + "        .serve(move || {\n"@
        + "          // TODO: remove this clone if possible?;\n"@
        + "          let service_impl = service_impl.clone();\n"@
        + "          ::hyper::service::service_fn(move |req| Self::route(service_impl.clone(), req))\n"@
        + "        })\n"@ + "        .map_err(|e| eprintln!(\"server error: {}\", e));"@
        + "      server\n"@ + "    }));\n"@ + "  }\n"@
}

/// The generated match arm that routes the requests of one RPC method of a
/// service in `package`: its URL path is `/twirp/<package>/<proto name>`.
pub open spec fn route_arm_text(package: Seq<char>, m: Method) -> Seq<char> {
    "        \"/twirp/"@ + package + "/"@ + m.proto_name@ + "\" => {\n"@
        + "          let rpc_req = match serde_json::from_slice::<"@ + m.input_type@ + ">(&body) {\n"@
        + "            Ok(rpc_req) => rpc_req,\n"@
        + "            Err(e) => return ::futures::future::ok(::hyper::Response::new(::hyper::Body::from(format!(\"error deserializing "@
        + m.input_type@ + ": {}\", e)))),\n"@ + "          };\n"@ + "          match service_impl."@
        + m.name@
        + "(rpc_req) {\n            Ok(rpc_res) => serde_json::to_string(&rpc_res),\n            Err(err_res) => serde_json::to_string(&err_res),\n          }\n"@
        + "      },\n"@
}

/// `route_arm_text` for a fixed package, as a function value.
pub open spec fn route_arm_fn(package: Seq<char>) -> spec_fn(Method) -> Seq<char> {
    |m: Method| route_arm_text(package, m)
}

/// The part of the generated `route` function before its match arms.
pub open spec fn route_head_text() -> Seq<char> {
    "\n"@
        + "  fn route(\n        service_impl: ::std::sync::Arc<S>,\n        req: ::hyper::Request<::hyper::Body>\n      ) -> Box<::futures::Future<Item = ::hyper::Response<::hyper::Body>, Error = ::hyper::Error> + Send> {\n"@
        + "    if req.method() != ::hyper::Method::POST {\n"@
        + "      return Box::new(::futures::future::ok(::hyper::Response::new(::hyper::Body::from(\"method not found\"))));\n"@
        + "    }\n"@ + "    // cloning to transfer ownership to the future\n"@
        + "    let uri = req.uri().clone();\n"@
        + "    let fut = req.into_body().concat2().and_then(move |body: ::hyper::Chunk| {\n"@
        + "      let json_result = match uri.path() {\n"@
}

/// The part of the generated `route` function after its match arms.
pub open spec fn route_tail_text() -> Seq<char> {
    "        _ => return ::futures::future::ok(::hyper::Response::new(::hyper::Body::from(\"route not found\"))),\n"@
        + "      };\n"@ + "      let json_resp = match json_result {\n"@ + "        Ok(s) => s,\n"@
        + "        Err(e) => return ::futures::future::ok(::hyper::Response::new(::hyper::Body::from(format!(\"serialization error: {}\", e)))),\n"@
        + "      };\n"@
        + "      ::futures::future::ok(::hyper::Response::new(::hyper::Body::from(json_resp)))\n"@
        + "    });\n"@ + "    Box::new(fut)\n"@ + "  }\n"@
}

/// The generated `route` function: one match arm per RPC method.
pub open spec fn route_fn_text(s: Service) -> Seq<char> {
    route_head_text() + concat_each(s.methods@, route_arm_fn(s.package@)) + route_tail_text()
}

/// The generated server type and its methods.
pub open spec fn server_text(s: Service) -> Seq<char> {
    "pub struct "@ + server_type_text(s) + "<S: "@ + s.name@ + "+Send+Sync+'static> {\n"@
        + "  service_impl: S,\n"@ + "}\n\n"@ + "impl<S: "@ + s.name@ + "+Send+Sync+'static> "@
        + server_type_text(s) + "<S> {"@ + new_fn_text(s) + listen_fn_text() + route_fn_text(s)
        + "}\n"@
}

/// Everything that is generated for one service.
pub open spec fn service_text(s: Service) -> Seq<char> {
    "\n"@ + trait_text(s) + server_text(s)
}

/// The import that the generated servers need, written once after at
/// least one service was generated.
pub open spec fn finalize_text(count: u16) -> Seq<char> {
    if count > 0 {
        "use ::hyper::rt::{Future, Stream};"@
    } else {
        Seq::empty()
    }
}

/// `piece` with `pre` before it and `post` after it.
pub open spec fn surround(pre: Seq<char>, piece: Seq<char>, post: Seq<char>) -> Seq<char> {
    pre + piece + post
}

/// `piece` stands, whole and in one piece, somewhere in `whole`.
pub open spec fn contains_text(whole: Seq<char>, piece: Seq<char>) -> bool {
    exists|pre: Seq<char>, post: Seq<char>| whole == #[trigger] surround(pre, piece, post)
}

/// The text for the `i`-th method stands, whole and in one piece, inside
/// the concatenation over all methods.
pub proof fn lemma_concat_each_contains(ms: Seq<Method>, f: spec_fn(Method) -> Seq<char>, i: int)
    requires
        0 <= i < ms.len(),
    ensures
        contains_text(concat_each(ms, f), f(ms[i])),
    decreases ms.len(),
{
    let whole = concat_each(ms, f);
    if i == ms.len() - 1 {
        let pre = concat_each(ms.drop_last(), f);
        assert(whole =~= surround(pre, f(ms[i]), Seq::<char>::empty()));
    } else {
        lemma_concat_each_contains(ms.drop_last(), f, i);
        assert(ms.drop_last()[i] == ms[i]);
        let (pre, post) = choose|pre: Seq<char>, post: Seq<char>|
            concat_each(ms.drop_last(), f) == #[trigger] surround(pre, f(ms[i]), post);
        assert(whole =~= surround(pre, f(ms[i]), post + f(ms.last())));
    }
}

/// Text that stands inside `inner` also stands inside `a + inner + b`.
pub proof fn lemma_contains_in_context(inner: Seq<char>, piece: Seq<char>, a: Seq<char>, b: Seq<char>)
    requires
        contains_text(inner, piece),
    ensures
        contains_text(a + inner + b, piece),
{
    let (pre, post) = choose|pre: Seq<char>, post: Seq<char>|
        inner == #[trigger] surround(pre, piece, post);
    assert(a + inner + b =~= surround(a + pre, piece, post + b));
}

/// For every RPC method of a service, the generated code declares the
/// method in the service trait and routes its URL path
/// `/twirp/<package>/<proto name>` in the server's `route` function.
pub proof fn lemma_every_method_generated(s: Service, i: int)
    requires
        0 <= i < s.methods@.len(),
    ensures
        contains_text(service_text(s), trait_method_text(s.methods@[i])),
        contains_text(service_text(s), route_arm_text(s.package@, s.methods@[i])),
{
    let m = s.methods@[i];
    let e = Seq::<char>::empty();
    lemma_concat_each_contains(s.methods@, trait_method_fn(), i);
    let head = comments_text(s.comments, 0) + "pub trait "@ + s.name@ + " {"@;
    lemma_contains_in_context(concat_each(s.methods@, trait_method_fn()), trait_method_text(m), head, "}\n\n"@);
    lemma_contains_in_context(trait_text(s), trait_method_text(m), "\n"@, server_text(s));

    lemma_concat_each_contains(s.methods@, route_arm_fn(s.package@), i);
    let arm = route_arm_text(s.package@, m);
    lemma_contains_in_context(concat_each(s.methods@, route_arm_fn(s.package@)), arm, route_head_text(), route_tail_text());
    let before_route = "pub struct "@ + server_type_text(s) + "<S: "@ + s.name@ + "+Send+Sync+'static> {\n"@
        + "  service_impl: S,\n"@ + "}\n\n"@ + "impl<S: "@ + s.name@ + "+Send+Sync+'static> "@
        + server_type_text(s) + "<S> {"@ + new_fn_text(s) + listen_fn_text();
    lemma_contains_in_context(route_fn_text(s), arm, before_route, "}\n"@);
    lemma_contains_in_context(server_text(s), arm, "\n"@ + trait_text(s), e);
    assert("\n"@ + trait_text(s) + server_text(s) + e =~= service_text(s));
}

/// Concatenations over two method lists agree where the pieces agree
/// position by position.
pub proof fn lemma_concat_each_congruent(
    ms1: Seq<Method>,
    ms2: Seq<Method>,
    f1: spec_fn(Method) -> Seq<char>,
    f2: spec_fn(Method) -> Seq<char>,
)
    requires
        ms1.len() == ms2.len(),
        forall|i: int| 0 <= i < ms1.len() ==> f1(ms1[i]) == f2(ms2[i]),
    ensures
        concat_each(ms1, f1) == concat_each(ms2, f2),
    decreases ms1.len(),
{
    if ms1.len() > 0 {
        let (d1, d2) = (ms1.drop_last(), ms2.drop_last());
        assert forall|i: int| 0 <= i < d1.len() implies f1(d1[i]) == f2(d2[i]) by {
            assert(d1[i] == ms1[i] && d2[i] == ms2[i]);
        }
        lemma_concat_each_congruent(d1, d2, f1, f2);
        assert(f1(ms1[ms1.len() - 1]) == f2(ms2[ms2.len() - 1]));
    }
}

/// Two methods that a request is routed to in the same way: same Rust
/// name, same .proto name and same request type.
pub open spec fn same_routing(a: Method, b: Method) -> bool {
    &&& a.name@ == b.name@
    &&& a.proto_name@ == b.proto_name@
    &&& a.input_type@ == b.input_type@
}

/// The generated `route` function reads of a service only its package and,
/// of each method, its name, .proto name and request type: services that
/// agree on these get the same `route` function, whatever their names,
/// comments and response types.
pub proof fn lemma_route_reads_only_routing_fields(s1: Service, s2: Service)
    requires
        s1.package@ == s2.package@,
        s1.methods@.len() == s2.methods@.len(),
        forall|i: int|
            0 <= i < s1.methods@.len() ==> #[trigger] same_routing(s1.methods@[i], s2.methods@[i]),
    ensures
        route_fn_text(s1) == route_fn_text(s2),
{
    let (f1, f2) = (route_arm_fn(s1.package@), route_arm_fn(s2.package@));
    assert forall|i: int| 0 <= i < s1.methods@.len() implies f1(s1.methods@[i]) == f2(
        s2.methods@[i],
    ) by {
        assert(same_routing(s1.methods@[i], s2.methods@[i]));
    }
    lemma_concat_each_congruent(s1.methods@, s2.methods@, f1, f2);
}

/// The generated server text depends on the service only through its name
/// and its `route` function: two services that agree on both get the same
/// server text.
pub proof fn lemma_server_reads_name_and_route(s1: Service, s2: Service)
    requires
        s1.name@ == s2.name@,
        route_fn_text(s1) == route_fn_text(s2),
    ensures
        server_text(s1) == server_text(s2),
{
}

/// `a` followed by `r`.
pub open spec fn followed_by(a: Seq<char>, r: Seq<char>) -> Seq<char> {
    a + r
}

/// In the generated `route` function every RPC method's match arm stands,
/// in the order of the methods, before the route-not-found fallback arm:
/// the `route` function of a service is the one of a service without
/// methods (same package) with all the methods' arms inserted, in order,
/// right before its fallback arm.
pub proof fn lemma_route_arms_precede_fallback(s: Service, bare: Service)
    requires
        bare.package@ == s.package@,
        bare.methods@.len() == 0,
    ensures
        exists|h: Seq<char>, r: Seq<char>|
            {
                &&& route_fn_text(bare) == #[trigger] surround(
                    h,
                    "        _ => return ::futures::future::ok(::hyper::Response::new(::hyper::Body::from(\"route not found\"))),\n"@,
                    r,
                )
                &&& route_fn_text(s) == surround(
                    h,
                    concat_each(s.methods@, route_arm_fn(s.package@))
                        + "        _ => return ::futures::future::ok(::hyper::Response::new(::hyper::Body::from(\"route not found\"))),\n"@,
                    r,
                )
            },
{
    let fallback =
        "        _ => return ::futures::future::ok(::hyper::Response::new(::hyper::Body::from(\"route not found\"))),\n"@;
    let h = route_head_text();
    let tail = route_tail_text();
    let r = tail.skip(fallback.len() as int);
    assert(tail =~= fallback + r);
    assert(concat_each(bare.methods@, route_arm_fn(bare.package@)) =~= Seq::<char>::empty());
    assert(route_fn_text(bare) =~= surround(h, fallback, r));
    let arms = concat_each(s.methods@, route_arm_fn(s.package@));
    assert(route_fn_text(s) =~= surround(h, arms + fallback, r));
}

/// The generated service trait declares every RPC method inside it, in
/// order, and then closes: the trait of a service is the one of a service
/// without methods (same name and comments) with all the method
/// declarations inserted, in order, right before the closing `}`.
pub proof fn lemma_trait_declares_all_methods_inside(s: Service, bare: Service)
    requires
        bare.name@ == s.name@,
        comments_text(bare.comments, 0) == comments_text(s.comments, 0),
        bare.methods@.len() == 0,
    ensures
        exists|p: Seq<char>|
            {
                &&& trait_text(bare) == #[trigger] surround(p, Seq::<char>::empty(), "}\n\n"@)
                &&& trait_text(s) == surround(
                    p,
                    concat_each(s.methods@, trait_method_fn()),
                    "}\n\n"@,
                )
            },
{
    let p = comments_text(s.comments, 0) + "pub trait "@ + s.name@ + " {"@;
    assert(concat_each(bare.methods@, trait_method_fn()) =~= Seq::<char>::empty());
    assert(trait_text(bare) =~= surround(p, Seq::<char>::empty(), "}\n\n"@));
    assert(trait_text(s) =~= surround(p, concat_each(s.methods@, trait_method_fn()), "}\n\n"@));
}

/// The generated server declares, returns from `new` and builds in `new`
/// one and the same type: the service's name followed by `Server`.
pub proof fn lemma_server_type_is_consistent(s: Service)
    ensures
        ("pub struct "@ + (s.name@ + "Server"@) + "<S: "@).is_prefix_of(server_text(s)),
        ("\n"@ + "  pub fn new(service_impl: S) -> "@ + (s.name@ + "Server"@) + "<S> {\n"@ + "    "@
            + (s.name@ + "Server"@) + " {\n"@).is_prefix_of(new_fn_text(s)),
{
    let t = s.name@ + "Server"@;
    let a = "pub struct "@ + t + "<S: "@;
    assert(server_text(s).subrange(0, a.len() as int) =~= a);
    let b = "\n"@ + "  pub fn new(service_impl: S) -> "@ + t + "<S> {\n"@ + "    "@ + t + " {\n"@;
    assert(new_fn_text(s).subrange(0, b.len() as int) =~= b);
}

/// Every RPC method returns a `Result` over its output type, whatever that
/// type is: return types differ only in the output type they wrap.
pub proof fn lemma_rpc_return_wraps_output(m: Method)
    ensures
        rpc_return_text(m) == "Result<"@ + m.output_type@ + ", ::prost_yat::Error>"@,
{
}

/// A method's comment text stands right before its declaration, and the
/// declaration itself does not depend on the comments: two methods with
/// the same name and types are declared by the same text after their
/// comments.
pub proof fn lemma_method_comments_precede_declaration(m1: Method, m2: Method)
    requires
        m1.name@ == m2.name@,
        m1.input_type@ == m2.input_type@,
        m1.output_type@ == m2.output_type@,
    ensures
        exists|d: Seq<char>|
            {
                &&& trait_method_text(m1) == #[trigger] followed_by(
                    "\n"@ + comments_text(m1.comments, 1),
                    d,
                )
                &&& trait_method_text(m2) == followed_by("\n"@ + comments_text(m2.comments, 1), d)
                &&& ("    fn "@ + m1.name@ + "(&self, r: "@).is_prefix_of(d)
            },
{
    let d = "    fn "@ + m1.name@ + "(&self, r: "@ + m1.input_type@ + ") -> "@ + rpc_return_text(m1)
        + ";\n"@;
    assert(trait_method_text(m1) =~= followed_by("\n"@ + comments_text(m1.comments, 1), d));
    assert(trait_method_text(m2) =~= followed_by("\n"@ + comments_text(m2.comments, 1), d));
    let p = "    fn "@ + m1.name@ + "(&self, r: "@;
    assert(d.subrange(0, p.len() as int) =~= p);
}

/// Once a generator has written a service, finalizing it writes the import
/// that the generated servers need; a generator that wrote none writes
/// nothing.
pub proof fn lemma_import_iff_generated(count: u16)
    ensures
        count > 0 ==> finalize_text(count) == "use ::hyper::rt::{Future, Stream};"@,
        count == 0 ==> finalize_text(count) == Seq::<char>::empty(),
{
}

/// The code generator that writes a Twirp server for each protobuf service.
pub struct Twirp {
    service_count: u16,
}

impl Twirp {
    /// How many services this generator has written so far.
    pub closed spec fn count(&self) -> u16 {
        self.service_count
    }

    /// A generator that has written no service yet.
    pub fn new() -> (t: Twirp)
        ensures
            t.count() == 0,
    {
        Twirp { service_count: 0 }
    }

    /// Writes everything for one service: its trait and its server.
    pub fn generate(&mut self, s: Service, buf: &mut String)
        requires
            old(self).count() < u16::MAX,
        ensures
            final(self).count() == old(self).count() + 1,
            final(buf)@ == old(buf)@ + service_text(s),
            has_no_comments(s.comments) ==> comments_text(s.comments, 0) == Seq::<char>::empty(),
            uncommented_methods_silent(s),
    {
        let ghost start = buf@;
        self.service_count = self.service_count + 1;
        buf.append("\n");
        self.write_trait(&s, buf);
        self.write_server(&s, buf);
        assert(buf@ =~= start + service_text(s));
    }

    /// Writes the import that the generated servers need, once at least one
    /// service was generated.
    pub fn finalize(&mut self, buf: &mut String)
        ensures
            final(self).count() == old(self).count(),
            final(buf)@ == old(buf)@ + finalize_text(old(self).count()),
    {
        if self.service_count > 0 {
            buf.append("use ::hyper::rt::{Future, Stream};");
        } else {
            assert(buf@ =~= buf@ + finalize_text(self.service_count));
        }
    }

    /// How many services this generator has written so far.
    pub fn service_count(&self) -> (n: u16)
        ensures
            n == self.count(),
    {
        self.service_count
    }

    /// Writes the server type of a service and its methods.
    pub fn write_server(&self, s: &Service, buf: &mut String)
        ensures
            final(buf)@ == old(buf)@ + server_text(*s),
    {
        let ghost start = buf@;
        let server_type = self.server_type(s);
        buf.append("pub struct ");
        buf.append(server_type.as_str());
        buf.append("<S: ");
        buf.append(s.name.as_str());
        buf.append("+Send+Sync+'static> {\n");
        buf.append("  service_impl: S,\n");
        buf.append("}\n\n");
        buf.append("impl<S: ");
        buf.append(s.name.as_str());
        buf.append("+Send+Sync+'static> ");
        buf.append(server_type.as_str());
        buf.append("<S> {");
        self.write_func_new(s, buf);
        self.write_func_listen(s, buf);
        self.write_func_route(s, buf);
        buf.append("}\n");
        assert(buf@ =~= start + server_text(*s));
    }

    /// Writes the constructor of the server type.
    pub fn write_func_new(&self, s: &Service, buf: &mut String)
        ensures
            final(buf)@ == old(buf)@ + new_fn_text(*s),
    {
        let ghost start = buf@;
        let server_type = self.server_type(s);
        buf.append("\n");
        buf.append("  pub fn new(service_impl: S) -> ");
        buf.append(server_type.as_str());
        buf.append("<S> {\n");
        buf.append("    ");
        buf.append(server_type.as_str());
        buf.append(" {\n");
        buf.append("      service_impl: service_impl,\n");
        buf.append("    }\n");
        buf.append("  }\n");
        assert(buf@ =~= start + new_fn_text(*s));
    }

    /// Writes the `listen` function, which is the same for every service.
    pub fn write_func_listen(&self, _s: &Service, buf: &mut String)
        ensures
            final(buf)@ == old(buf)@ + listen_fn_text(),
    {
        let ghost start = buf@;
        buf.append("\n");
        buf.append("  pub fn listen(self, addr: ::std::net::SocketAddr) {\n");
        buf.append("    let service_impl = ::std::sync::Arc::new(self.service_impl);\n");
        buf.append("    ::hyper::rt::run(::futures::future::lazy(move || {\n");
        buf.append("      let server = ::hyper::Server::bind(&addr)\n");
        buf.append("        .serve(move || {\n");
        buf.append("          // TODO: remove this clone if possible?;\n");
        buf.append("          let service_impl = service_impl.clone();\n");
        buf.append(
            "          ::hyper::service::service_fn(move |req| Self::route(service_impl.clone(), req))\n",
        );
        buf.append("        })\n");
        buf.append("        .map_err(|e| eprintln!(\"server error: {}\", e));");
        buf.append("      server\n");
        buf.append("    }));\n");
        buf.append("  }\n");
        assert(buf@ =~= start + listen_fn_text());
    }

    /// Writes the `route` function, with one match arm per RPC method.
    pub fn write_func_route(&self, s: &Service, buf: &mut String)
        ensures
            final(buf)@ == old(buf)@ + route_fn_text(*s),
    {
        let ghost start = buf@;
        buf.append("\n");
        buf.append(
            "  fn route(\n        service_impl: ::std::sync::Arc<S>,\n        req: ::hyper::Request<::hyper::Body>\n      ) -> Box<::futures::Future<Item = ::hyper::Response<::hyper::Body>, Error = ::hyper::Error> + Send> {\n",
        );
        buf.append("    if req.method() != ::hyper::Method::POST {\n");
        buf.append(
            "      return Box::new(::futures::future::ok(::hyper::Response::new(::hyper::Body::from(\"method not found\"))));\n",
        );
        buf.append("    }\n");
        buf.append("    // cloning to transfer ownership to the future\n");
        buf.append("    let uri = req.uri().clone();\n");
        buf.append("    let fut = req.into_body().concat2().and_then(move |body: ::hyper::Chunk| {\n");
        buf.append("      let json_result = match uri.path() {\n");
        assert(buf@ =~= start + route_head_text());
        let ghost head = buf@;
        assert(s.methods@.take(0) =~= Seq::<Method>::empty());
        let n = s.methods.len();
        let mut i: usize = 0;
        while i < n
            invariant
                n == s.methods@.len(),
                i <= n,
                buf@ == head + concat_each(s.methods@.take(i as int), route_arm_fn(s.package@)),
            decreases n - i,
        {
            let m = &s.methods[i];
            self.write_route_arm(&s.package, m, buf);
            proof {
                let ms = s.methods@;
                assert(ms.take(i + 1).drop_last() =~= ms.take(i as int));
                assert(ms.take(i + 1).last() == ms[i as int]);
            }
            i = i + 1;
        }
        assert(s.methods@.take(n as int) =~= s.methods@);
        let ghost arms_end = buf@;
        buf.append(
            "        _ => return ::futures::future::ok(::hyper::Response::new(::hyper::Body::from(\"route not found\"))),\n",
        );
        buf.append("      };\n");
        buf.append("      let json_resp = match json_result {\n");
        buf.append("        Ok(s) => s,\n");
        buf.append(
            "        Err(e) => return ::futures::future::ok(::hyper::Response::new(::hyper::Body::from(format!(\"serialization error: {}\", e)))),\n",
        );
        buf.append("      };\n");
        buf.append("      ::futures::future::ok(::hyper::Response::new(::hyper::Body::from(json_resp)))\n");
        buf.append("    });\n");
        buf.append("    Box::new(fut)\n");
        buf.append("  }\n");
        assert(buf@ =~= arms_end + route_tail_text());
        assert(buf@ =~= start + route_fn_text(*s));
    }

    /// Writes the service trait, with one method declaration per RPC
    /// method.
    pub fn write_trait(&self, service: &Service, buf: &mut String)
        ensures
            final(buf)@ == old(buf)@ + trait_text(*service),
            has_no_comments(service.comments) ==> comments_text(service.comments, 0) == Seq::<
                char,
            >::empty(),
            uncommented_methods_silent(*service),
    {
        let ghost start = buf@;
        append_comments(&service.comments, 0, buf);
        buf.append("pub trait ");
        buf.append(service.name.as_str());
        buf.append(" {");
        let ghost head = buf@;
        assert(service.methods@.take(0) =~= Seq::<Method>::empty());
        let n = service.methods.len();
        let mut i: usize = 0;
        while i < n
            invariant
                n == service.methods@.len(),
                i <= n,
                buf@ == head + concat_each(service.methods@.take(i as int), trait_method_fn()),
                forall|j: int|
                    #![trigger service.methods@[j]]
                    0 <= j < i && has_no_comments(service.methods@[j].comments)
                        ==> comments_text(service.methods@[j].comments, 1) == Seq::<char>::empty(),
            decreases n - i,
        {
            let m = &service.methods[i];
            self.write_trait_method(m, buf);
            proof {
                let ms = service.methods@;
                assert(ms.take(i + 1).drop_last() =~= ms.take(i as int));
                assert(ms.take(i + 1).last() == ms[i as int]);
            }
            i = i + 1;
        }
        buf.append("}\n\n");
        assert(service.methods@.take(n as int) =~= service.methods@);
        assert(buf@ =~= start + trait_text(*service));
    }

    /// Writes the declaration of one RPC method in the service trait.
    pub fn write_trait_method(&self, m: &Method, buf: &mut String)
        ensures
            final(buf)@ == old(buf)@ + trait_method_text(*m),
            has_no_comments(m.comments) ==> comments_text(m.comments, 1) == Seq::<char>::empty(),
    {
        let ghost start = buf@;
        buf.append("\n");
        append_comments(&m.comments, 1, buf);
        buf.append("    fn ");
        buf.append(m.name.as_str());
        buf.append("(&self, r: ");
        buf.append(m.input_type.as_str());
        buf.append(") -> ");
        let ret = self.rpc_return_type(m);
        buf.append(ret.as_str());
        buf.append(";\n");
        assert(buf@ =~= start + trait_method_text(*m));
    }

    /// Writes the match arm of the `route` function for one RPC method of a
    /// service in `package`.
    pub fn write_route_arm(&self, package: &String, m: &Method, buf: &mut String)
        ensures
            final(buf)@ == old(buf)@ + route_arm_text(package@, *m),
    {
        let ghost start = buf@;
        buf.append("        \"/twirp/");
        buf.append(package.as_str());
        buf.append("/");
        buf.append(m.proto_name.as_str());
        buf.append("\" => {\n");
        buf.append("          let rpc_req = match serde_json::from_slice::<");
        buf.append(m.input_type.as_str());
        buf.append(">(&body) {\n");
        buf.append("            Ok(rpc_req) => rpc_req,\n");
        buf.append(
            "            Err(e) => return ::futures::future::ok(::hyper::Response::new(::hyper::Body::from(format!(\"error deserializing ",
        );
        buf.append(m.input_type.as_str());
        buf.append(": {}\", e)))),\n");
        buf.append("          };\n");
        buf.append("          match service_impl.");
        buf.append(m.name.as_str());
        buf.append(
            "(rpc_req) {\n            Ok(rpc_res) => serde_json::to_string(&rpc_res),\n            Err(err_res) => serde_json::to_string(&err_res),\n          }\n",
        );
        buf.append("      },\n");
        assert(buf@ =~= start + route_arm_text(package@, *m));
    }

    /// The return type of the trait method for an RPC method.
    pub fn rpc_return_type(&self, m: &Method) -> (t: String)
        ensures
            t@ == rpc_return_text(*m),
    {
        let mut t = String::from_str("Result<");
        t.append(m.output_type.as_str());
        t.append(", ::prost_yat::Error>");
        t
    }

    /// The name of the server type of a service.
    pub fn server_type(&self, s: &Service) -> (t: String)
        ensures
            t@ == server_type_text(*s),
    {
        let mut t = s.name.clone();
        t.append("Server");
        t
    }
}

} // verus!
