use shadergen::ShaderGenerator;

const VERTEX_BODY: &str = "\n            #include \"UnityCG.cginc\"\n            \n            struct appdata\n            {\n                float4 vertex : POSITION;\n                float2 uv : TEXCOORD0;\n            };\n\n            struct v2f\n            {\n                float2 uv : TEXCOORD0;\n                float4 vertex : SV_POSITION;\n            };\n\n            sampler2D _MainTex;\n            float4 _MainTex_ST;\n            \n            v2f vert (appdata v)\n            {\n                v2f o;\n                o.vertex = UnityObjectToClipPos(v.vertex);\n                o.uv = TRANSFORM_TEX(v.uv, _MainTex);\n                return o;\n            }";

const FRAGMENT_BODY: &str = "\n            fixed4 _Color;\n            \n            fixed4 frag (v2f i) : SV_Target\n            {\n                fixed4 col = tex2D(_MainTex, i.uv) * _Color;\n                return col;\n            }";

#[test]
fn end_to_end_render_matches_template() {
    let mut generator = ShaderGenerator::new("Custom/MyShader");
    generator.add_property("_MainTex", "2D", "\"white\" {}");
    generator.add_property("_Color", "Color", "(1,1,1,1)");
    generator.vertex_code = VERTEX_BODY.to_string();
    generator.fragment_code = FRAGMENT_BODY.to_string();

    let expected = format!(
        "Shader \"Custom/MyShader\"\n{{\n    Properties\n    {{\n        _MainTex (\"_MainTex\", 2D) = \"white\" {{}}\n        _Color (\"_Color\", Color) = (1,1,1,1)\n    }}\n\n    SubShader\n    {{\n        Tags {{ \"RenderType\"=\"Opaque\" }}\n        LOD 100\n\n        Pass\n        {{\n            PROGRAM\n            #pragma vertex vert\n            #pragma fragment frag\n\n{}\n\n{}\n\n            ENDCG\n        }}\n    }}\n}}\n",
        VERTEX_BODY, FRAGMENT_BODY
    );
    assert_eq!(generator.generate_unity_shader(), expected);
}

#[test]
fn new_document_is_empty() {
    let generator = ShaderGenerator::new("Custom/Empty");
    assert_eq!(generator.name, "Custom/Empty");
    assert_eq!(generator.properties.len(), 0);
    assert_eq!(generator.vertex_code, "");
    assert_eq!(generator.fragment_code, "");
}

#[test]
fn empty_document_renders_empty_properties_block() {
    let generator = ShaderGenerator::new("X");
    let expected = "Shader \"X\"\n{\n    Properties\n    {\n    }\n\n    SubShader\n    {\n        Tags { \"RenderType\"=\"Opaque\" }\n        LOD 100\n\n        Pass\n        {\n            PROGRAM\n            #pragma vertex vert\n            #pragma fragment frag\n\n\n\n\n\n            ENDCG\n        }\n    }\n}\n";
    assert_eq!(generator.generate_unity_shader(), expected);
}

#[test]
fn properties_render_in_insertion_order() {
    let mut generator = ShaderGenerator::new("Order");
    generator.add_property("_Zeta", "Float", "3");
    generator.add_property("_Alpha", "Range(0,1)", "0.5");
    generator.add_property("_Mid", "Vector", "(0,0,0,0)");
    let rendered = generator.generate_unity_shader();

    let zeta = rendered.find("        _Zeta (\"_Zeta\", Float) = 3\n").unwrap();
    let alpha = rendered.find("        _Alpha (\"_Alpha\", Range(0,1)) = 0.5\n").unwrap();
    let mid = rendered.find("        _Mid (\"_Mid\", Vector) = (0,0,0,0)\n").unwrap();
    assert!(zeta < alpha);
    assert!(alpha < mid);
}

#[test]
fn render_is_deterministic_and_idempotent() {
    let mut generator = ShaderGenerator::new("Twice");
    generator.add_property("_MainTex", "2D", "\"white\" {}");
    generator.vertex_code = "v".to_string();
    generator.fragment_code = "f".to_string();
    let first = generator.generate_unity_shader();
    let second = generator.generate_unity_shader();
    assert_eq!(first, second);
}

#[test]
fn brace_free_inputs_render_five_brace_pairs() {
    let mut generator = ShaderGenerator::new("Custom/Braces");
    generator.add_property("_Alpha", "Float", "1");
    generator.vertex_code = "vert body".to_string();
    generator.fragment_code = "frag body".to_string();
    let rendered = generator.generate_unity_shader();
    let opening = rendered.chars().filter(|c| *c == '{').count();
    let closing = rendered.chars().filter(|c| *c == '}').count();
    assert_eq!(opening, 5);
    assert_eq!(closing, 5);
}

#[test]
fn special_characters_pass_through_verbatim() {
    let mut generator = ShaderGenerator::new("Custom/Raw");
    generator.add_property("_MainTex", "2D", "\"white\" {}");
    generator.add_property("_Odd", "Custom\"Type{", "value}with\"quotes{and}braces");
    let rendered = generator.generate_unity_shader();
    assert!(rendered.contains("        _MainTex (\"_MainTex\", 2D) = \"white\" {}\n"));
    assert!(rendered.contains(
        "        _Odd (\"_Odd\", Custom\"Type{) = value}with\"quotes{and}braces\n"
    ));
}

#[test]
fn duplicate_property_names_are_kept() {
    let mut generator = ShaderGenerator::new("Custom/Dup");
    generator.add_property("_Color", "Color", "(1,1,1,1)");
    generator.add_property("_Color", "Color", "(0,0,0,0)");
    let rendered = generator.generate_unity_shader();
    let first = rendered.find("        _Color (\"_Color\", Color) = (1,1,1,1)\n").unwrap();
    let second = rendered.find("        _Color (\"_Color\", Color) = (0,0,0,0)\n").unwrap();
    assert_eq!(generator.properties.len(), 2);
    assert!(first < second);
}

#[test]
fn appending_keeps_earlier_properties() {
    let mut generator = ShaderGenerator::new("Grow");
    generator.add_property("_A", "Float", "0");
    let before = generator.generate_unity_shader();
    generator.add_property("_B", "Float", "1");
    let after = generator.generate_unity_shader();
    assert!(before.contains("        _A (\"_A\", Float) = 0\n"));
    assert!(after.contains("        _A (\"_A\", Float) = 0\n"));
    assert!(after.contains("        _B (\"_B\", Float) = 1\n"));
    assert!(!before.contains("_B"));
}
