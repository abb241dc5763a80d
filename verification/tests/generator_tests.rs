//! Tests of the service code generator: the emitted scaffolding, its
//! determinism, and client/server path agreement on concrete values.

use twirp::generator::{service_generator, MethodDescription, ServiceDescription};
use twirp::server::{method_path, route_path};

fn demo_service() -> ServiceDescription {
    ServiceDescription {
        name: String::from("TestAPI"),
        package: String::from("test"),
        proto_name: String::from("TestAPI"),
        methods: vec![
            MethodDescription {
                name: String::from("ping"),
                proto_name: String::from("Ping"),
                input_type: String::from("PingRequest"),
                output_type: String::from("PingResponse"),
            },
            MethodDescription {
                name: String::from("boom"),
                proto_name: String::from("Boom"),
                input_type: String::from("PingRequest"),
                output_type: String::from("PingResponse"),
            },
        ],
    }
}

#[test]
fn test_generate_single_method_exact() {
    let service = ServiceDescription {
        name: String::from("Haberdasher"),
        package: String::from("example"),
        proto_name: String::from("Haberdasher"),
        methods: vec![MethodDescription {
            name: String::from("make_hat"),
            proto_name: String::from("MakeHat"),
            input_type: String::from("Size"),
            output_type: String::from("Hat"),
        }],
    };
    let mut generator = service_generator();
    let mut buf = String::new();
    generator.generate(&service, &mut buf);
    let lines = [
        "",
        "#[twirp::async_trait::async_trait]",
        "pub trait Haberdasher {",
        "    type Error;",
        "    async fn make_hat(&self, ctx: twirp::Context, req: Size) -> Result<Hat, Self::Error>;",
        "}",
        "#[twirp::async_trait::async_trait]",
        "impl<T> Haberdasher for std::sync::Arc<T>",
        "where",
        "    T: Haberdasher + Sync + Send",
        "{",
        "    type Error = T::Error;",
        "",
        "    async fn make_hat(&self, ctx: twirp::Context, req: Size) -> Result<Hat, Self::Error> {",
        "        T::make_hat(&*self, ctx, req).await",
        "    }",
        "}",
        "",
        "#[twirp::async_trait::async_trait]",
        "pub trait HaberdasherClient: Send + Sync {",
        "    async fn make_hat(&self, req: Size) -> Result<Hat, twirp::ClientError>;",
        "}",
        "#[twirp::async_trait::async_trait]",
        "impl HaberdasherClient for twirp::client::Client {",
        "    async fn make_hat(&self, req: Size) -> Result<Hat, twirp::ClientError> {",
        "    self.request(\"example.Haberdasher/MakeHat\", req).await",
        "    }",
        "}",
    ];
    let mut expected = String::new();
    for line in lines {
        expected.push_str(line);
        expected.push('\n');
    }
    assert_eq!(buf, expected);
}

#[test]
fn test_generate_is_deterministic() {
    let mut generator = service_generator();
    let mut first = String::new();
    generator.generate(&demo_service(), &mut first);
    let mut second = String::new();
    generator.generate(&demo_service(), &mut second);
    assert_eq!(first, second);
}

#[test]
fn test_generate_appends() {
    let mut generator = service_generator();
    let mut buf = String::from("// prior content");
    generator.generate(&demo_service(), &mut buf);
    assert!(buf.starts_with("// prior content\n"));
}

#[test]
fn test_client_and_server_agree_on_paths() {
    let service = demo_service();
    let mut generator = service_generator();
    let mut buf = String::new();
    generator.generate(&service, &mut buf);
    // The generated client requests exactly {fqn}/{wire_name} ...
    assert!(buf.contains("self.request(\"test.TestAPI/Ping\", req).await"));
    assert!(buf.contains("self.request(\"test.TestAPI/Boom\", req).await"));
    // ... and the server's routed path is the prefix plus that same path.
    assert_eq!(service.fqn(), "test.TestAPI");
    for wire in ["Ping", "Boom"] {
        let client_path = method_path(&service.fqn(), &String::from(wire));
        let server_path = route_path(
            &String::from("/twirp"),
            &service.fqn(),
            &String::from(wire),
        );
        assert_eq!(server_path, format!("/twirp/{}", client_path));
    }
}
