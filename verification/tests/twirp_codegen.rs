use prost_yat::{Comments, Method, Service, Twirp};

fn no_comments() -> Comments {
    Comments { leading_detached: vec![], leading: vec![], trailing: vec![] }
}

fn make_hat_method(comments: Comments) -> Method {
    Method {
        name: "make_hat".to_string(),
        proto_name: "MakeHat".to_string(),
        comments,
        input_type: "Size".to_string(),
        output_type: "Hat".to_string(),
    }
}

fn haberdasher(comments: Comments, methods: Vec<Method>) -> Service {
    Service {
        name: "Haberdasher".to_string(),
        proto_name: "Haberdasher".to_string(),
        package: "twitch.twirp.example".to_string(),
        comments,
        methods,
    }
}

fn listen() -> String {
    [
    "\n",
    "  pub fn listen(self, addr: ::std::net::SocketAddr) {\n",
    "    let service_impl = ::std::sync::Arc::new(self.service_impl);\n",
    "    ::hyper::rt::run(::futures::future::lazy(move || {\n",
    "      let server = ::hyper::Server::bind(&addr)\n",
    "        .serve(move || {\n",
    "          // TODO: remove this clone if possible?;\n",
    "          let service_impl = service_impl.clone();\n",
    "          ::hyper::service::service_fn(move |req| Self::route(service_impl.clone(), req))\n",
    "        })\n",
    "        .map_err(|e| eprintln!(\"server error: {}\", e));",
    "      server\n",
    "    }));\n",
    "  }\n",
    ]
    .concat()
}

fn route_head() -> String {
    [
    "\n",
    "  fn route(\n        service_impl: ::std::sync::Arc<S>,\n        req: ::hyper::Request<::hyper::Body>\n      ) -> Box<::futures::Future<Item = ::hyper::Response<::hyper::Body>, Error = ::hyper::Error> + Send> {\n",
    "    if req.method() != ::hyper::Method::POST {\n",
    "      return Box::new(::futures::future::ok(::hyper::Response::new(::hyper::Body::from(\"method not found\"))));\n",
    "    }\n",
    "    // cloning to transfer ownership to the future\n",
    "    let uri = req.uri().clone();\n",
    "    let fut = req.into_body().concat2().and_then(move |body: ::hyper::Chunk| {\n",
    "      let json_result = match uri.path() {\n",
    ]
    .concat()
}

fn route_tail() -> String {
    [
    "        _ => return ::futures::future::ok(::hyper::Response::new(::hyper::Body::from(\"route not found\"))),\n",
    "      };\n",
    "      let json_resp = match json_result {\n",
    "        Ok(s) => s,\n",
    "        Err(e) => return ::futures::future::ok(::hyper::Response::new(::hyper::Body::from(format!(\"serialization error: {}\", e)))),\n",
    "      };\n",
    "      ::futures::future::ok(::hyper::Response::new(::hyper::Body::from(json_resp)))\n",
    "    });\n",
    "    Box::new(fut)\n",
    "  }\n",
    ]
    .concat()
}

fn arm(package: &str, proto_name: &str, name: &str, input: &str) -> String {
    [
        "        \"/twirp/", package, "/", proto_name, "\" => {\n",
        "          let rpc_req = match serde_json::from_slice::<", input, ">(&body) {\n",
        "            Ok(rpc_req) => rpc_req,\n",
        "            Err(e) => return ::futures::future::ok(::hyper::Response::new(::hyper::Body::from(format!(\"error deserializing ",
        input,
        ": {}\", e)))),\n",
        "          };\n",
        "          match service_impl.", name, "(rpc_req) {\n",
        "            Ok(rpc_res) => serde_json::to_string(&rpc_res),\n",
        "            Err(err_res) => serde_json::to_string(&err_res),\n",
        "          }\n",
        "      },\n",
    ]
    .concat()
}

fn server_text(name: &str, arms: &str) -> String {
    let st = format!("{}Server", name);
    [
        "pub struct ", &st, "<S: ", name, "+Send+Sync+'static> {\n",
        "  service_impl: S,\n",
        "}\n\n",
        "impl<S: ", name, "+Send+Sync+'static> ", &st, "<S> {",
        "\n",
        "  pub fn new(service_impl: S) -> ", &st, "<S> {\n",
        "    ", &st, " {\n",
        "      service_impl: service_impl,\n",
        "    }\n",
        "  }\n",
        &listen(), &route_head(), arms, &route_tail(),
        "}\n",
    ]
    .concat()
}

#[test]
fn generates_trait_and_server_for_haberdasher() {
    let mut gen = Twirp::new();
    let mut buf = String::from("// prelude\n");
    gen.generate(haberdasher(no_comments(), vec![make_hat_method(no_comments())]), &mut buf);
    let expected = format!(
        "// prelude\n\npub trait Haberdasher {{\n    fn make_hat(&self, r: Size) -> Result<Hat, ::prost_yat::Error>;\n}}\n\n{}",
        server_text(
            "Haberdasher",
            &arm("twitch.twirp.example", "MakeHat", "make_hat", "Size")
        )
    );
    assert_eq!(buf, expected);
}

#[test]
fn service_without_methods() {
    let mut gen = Twirp::new();
    let mut buf = String::new();
    gen.generate(haberdasher(no_comments(), vec![]), &mut buf);
    let expected =
        format!("\npub trait Haberdasher {{}}\n\n{}", server_text("Haberdasher", ""));
    assert_eq!(buf, expected);
}

#[test]
fn every_method_is_declared_and_routed() {
    let second = Method {
        name: "make_cap".to_string(),
        proto_name: "MakeCap".to_string(),
        comments: no_comments(),
        input_type: "Head".to_string(),
        output_type: "Cap".to_string(),
    };
    let mut gen = Twirp::new();
    let mut buf = String::new();
    gen.generate(haberdasher(no_comments(), vec![make_hat_method(no_comments()), second]), &mut buf);
    assert!(buf.contains("    fn make_hat(&self, r: Size) -> Result<Hat, ::prost_yat::Error>;\n"));
    assert!(buf.contains("    fn make_cap(&self, r: Head) -> Result<Cap, ::prost_yat::Error>;\n"));
    assert!(buf.contains(&arm("twitch.twirp.example", "MakeHat", "make_hat", "Size")));
    assert!(buf.contains(&arm("twitch.twirp.example", "MakeCap", "make_cap", "Head")));
    let hat = buf.find("\"/twirp/twitch.twirp.example/MakeHat\"").unwrap();
    let cap = buf.find("\"/twirp/twitch.twirp.example/MakeCap\"").unwrap();
    assert!(hat < cap);
}

#[test]
fn comments_become_doc_comments() {
    let svc_comments = Comments {
        leading_detached: vec![],
        leading: vec![" A Haberdasher makes hats for clients.".to_string()],
        trailing: vec![],
    };
    let method_comments = Comments {
        leading_detached: vec![],
        leading: vec![" MakeHat produces a hat.".to_string()],
        trailing: vec![],
    };
    let mut gen = Twirp::new();
    let mut buf = String::new();
    gen.generate(haberdasher(svc_comments, vec![make_hat_method(method_comments)]), &mut buf);
    assert!(buf.starts_with(
        "\n/// A Haberdasher makes hats for clients.\npub trait Haberdasher {\n    /// MakeHat produces a hat.\n    fn make_hat("
    ));
}

#[test]
fn comments_text_matches_prost_build() {
    let leading_detached = vec![vec!["detached".to_string()]];
    let leading = vec!["lead".to_string()];
    let trailing = vec!["trail".to_string()];
    let ours = Comments {
        leading_detached: leading_detached.clone(),
        leading: leading.clone(),
        trailing: trailing.clone(),
    };
    let theirs = prost_build::Comments { leading_detached, leading, trailing };
    let mut expected = String::from("\n");
    theirs.append_with_indent(0, &mut expected);
    expected.push_str("pub trait Haberdasher {}\n\n");
    let mut gen = Twirp::new();
    let mut buf = String::new();
    gen.generate(haberdasher(ours, vec![]), &mut buf);
    assert!(buf.starts_with(&expected));
}

#[test]
fn finalize_writes_import_only_after_a_service() {
    let mut gen = Twirp::new();
    let mut buf = String::new();
    gen.finalize(&mut buf);
    assert_eq!(buf, "");
    gen.generate(haberdasher(no_comments(), vec![]), &mut buf);
    let mut tail = String::new();
    gen.finalize(&mut tail);
    assert_eq!(tail, "use ::hyper::rt::{Future, Stream};");
    let mut again = String::new();
    gen.finalize(&mut again);
    assert_eq!(again, "use ::hyper::rt::{Future, Stream};");
}

#[test]
fn write_trait_for_uncommented_service() {
    let gen = Twirp::new();
    let mut buf = String::new();
    gen.write_trait(&haberdasher(no_comments(), vec![make_hat_method(no_comments())]), &mut buf);
    assert_eq!(
        buf,
        "pub trait Haberdasher {\n    fn make_hat(&self, r: Size) -> Result<Hat, ::prost_yat::Error>;\n}\n\n"
    );
}

#[test]
fn write_trait_appends_after_existing_text() {
    let gen = Twirp::new();
    let svc = Service {
        name: "Foo".to_string(),
        proto_name: String::new(),
        package: String::new(),
        comments: no_comments(),
        methods: vec![],
    };
    let mut buf = String::from("x");
    gen.write_trait(&svc, &mut buf);
    assert_eq!(buf, "xpub trait Foo {}\n\n");
}

#[test]
fn generate_frames_the_service() {
    let mut gen = Twirp::new();
    let mut buf = String::new();
    gen.generate(haberdasher(no_comments(), vec![]), &mut buf);
    assert!(buf.starts_with(
        "\npub trait Haberdasher {}\n\npub struct HaberdasherServer<S: Haberdasher+Send+Sync+'static> {\n"
    ));
    assert!(buf.ends_with("  }\n}\n"));
    assert_eq!(gen.service_count(), 1);
}

#[test]
fn listen_does_not_depend_on_the_service() {
    let gen = Twirp::new();
    let mut a = String::from("p");
    let mut b = String::from("p");
    gen.write_func_listen(&haberdasher(no_comments(), vec![]), &mut a);
    let other = Service {
        name: "Other".to_string(),
        proto_name: "Other".to_string(),
        package: "else.where".to_string(),
        comments: no_comments(),
        methods: vec![make_hat_method(no_comments())],
    };
    gen.write_func_listen(&other, &mut b);
    assert_eq!(a, b);
    assert_eq!(a, format!("p{}", listen()));
}

#[test]
fn route_reads_only_routing_fields() {
    let gen = Twirp::new();
    let mut differently_named = make_hat_method(no_comments());
    differently_named.output_type = "Bonnet".to_string();
    differently_named.comments.leading = vec!["a comment".to_string()];
    let s1 = haberdasher(no_comments(), vec![make_hat_method(no_comments())]);
    let mut s2 = haberdasher(no_comments(), vec![differently_named]);
    s2.name = "Milliner".to_string();
    let mut a = String::new();
    let mut b = String::new();
    gen.write_func_route(&s1, &mut a);
    gen.write_func_route(&s2, &mut b);
    assert_eq!(a, b);
    assert_eq!(
        a,
        format!(
            "{}{}{}",
            route_head(),
            arm("twitch.twirp.example", "MakeHat", "make_hat", "Size"),
            route_tail()
        )
    );
}

#[test]
fn server_and_type_names() {
    let gen = Twirp::new();
    let svc = haberdasher(no_comments(), vec![]);
    assert_eq!(gen.server_type(&svc), "HaberdasherServer");
    assert_eq!(
        gen.rpc_return_type(&make_hat_method(no_comments())),
        "Result<Hat, ::prost_yat::Error>"
    );
    let mut buf = String::new();
    gen.write_server(&svc, &mut buf);
    assert_eq!(buf, server_text("Haberdasher", ""));
}
