use powerfmt::delegate;
use powerfmt::delegate::ImplBlock;
use powerfmt::diagnostics::ExpandError;
use powerfmt::private_metadata;
use powerfmt::private_metadata::FieldDef;
use powerfmt::private_metadata::StructDef;
use powerfmt::visibility::PathSeg;
use powerfmt::visibility::Visibility;
use powerfmt::visibility::vis_prepend_super;

fn protocol_block() -> ImplBlock {
    ImplBlock {
        generics: String::from("<T>"),
        self_ty: String::from("Foo<T>"),
        negative: false,
        trait_path: Some(vec![
            String::from("powerfmt"),
            String::from("smart_display"),
            String::from("SmartDisplay"),
        ]),
    }
}

fn sample_struct(vis: Visibility, fields: Vec<FieldDef>) -> StructDef {
    StructDef { vis, name: String::from("Foo"), fields, non_exhaustive: false }
}

#[test]
fn delegate_forwards_through_the_named_path() {
    let block = protocol_block();
    let expansion = delegate::implementation(true, block).unwrap();
    assert_eq!(expansion.original.generics, "<T>");
    assert_eq!(expansion.original.self_ty, "Foo<T>");
    assert_eq!(expansion.display.generics, "<T>");
    assert_eq!(expansion.display.self_ty, "Foo<T>");
    assert_eq!(
        expansion.display.forward_path,
        vec![
            String::from("powerfmt"),
            String::from("smart_display"),
            String::from("SmartDisplay"),
        ]
    );
}

#[test]
fn delegate_accepts_a_bare_trait_name() {
    let mut block = protocol_block();
    block.trait_path = Some(vec![String::from("SmartDisplay")]);
    let expansion = delegate::implementation(true, block).unwrap();
    assert_eq!(expansion.display.forward_path, vec![String::from("SmartDisplay")]);
}

#[test]
fn delegate_rejects_attribute_arguments() {
    assert_eq!(
        delegate::implementation(false, protocol_block()),
        Err(ExpandError::UnexpectedArguments)
    );
}

#[test]
fn delegate_rejects_an_unrelated_trait() {
    let mut block = protocol_block();
    block.trait_path = Some(vec![String::from("core"), String::from("Display")]);
    assert_eq!(delegate::implementation(true, block), Err(ExpandError::NotSmartDisplayImpl));
}

#[test]
fn delegate_rejects_an_inherent_impl() {
    let mut block = protocol_block();
    block.trait_path = None;
    assert_eq!(delegate::implementation(true, block), Err(ExpandError::NotSmartDisplayImpl));
}

#[test]
fn delegate_rejects_a_negative_impl() {
    let mut block = protocol_block();
    block.negative = true;
    assert_eq!(delegate::implementation(true, block), Err(ExpandError::NotSmartDisplayImpl));
}

#[test]
fn private_metadata_rejects_attribute_arguments() {
    let item = sample_struct(Visibility::Inherited, Vec::new());
    assert_eq!(
        private_metadata::implementation(false, item),
        Err(ExpandError::UnexpectedArguments)
    );
}

#[test]
fn private_metadata_rejects_a_public_item() {
    let item = sample_struct(Visibility::Public, Vec::new());
    assert_eq!(private_metadata::implementation(true, item), Err(ExpandError::AlreadyPublic));
}

#[test]
fn private_metadata_rejects_a_name_rooted_field_path() {
    let bad = Visibility::Restricted {
        in_token: true,
        path: vec![PathSeg::Named(String::from("some_module"))],
    };
    let item = sample_struct(
        Visibility::Inherited,
        vec![FieldDef { name: String::from("x"), vis: bad }],
    );
    assert_eq!(
        private_metadata::implementation(true, item),
        Err(ExpandError::UnexpectedVisibilityPath)
    );
}

#[test]
fn private_metadata_wraps_and_reexports() {
    let fields = vec![
        FieldDef { name: String::from("a"), vis: Visibility::Inherited },
        FieldDef {
            name: String::from("b"),
            vis: Visibility::Restricted { in_token: false, path: vec![PathSeg::KwCrate] },
        },
        FieldDef { name: String::from("c"), vis: Visibility::Public },
    ];
    let item = sample_struct(Visibility::Inherited, fields);
    let expansion = private_metadata::implementation(true, item).unwrap();
    assert_eq!(expansion.mod_name, "__powerfmt_private_Foo");
    assert_eq!(expansion.reexport_vis, Visibility::Inherited);
    assert_eq!(expansion.item.vis, Visibility::Public);
    assert!(expansion.item.non_exhaustive);
    assert_eq!(expansion.item.name, "Foo");
    assert_eq!(expansion.item.fields.len(), 3);
    assert_eq!(expansion.item.fields[0].name, "a");
    assert_eq!(
        expansion.item.fields[0].vis,
        Visibility::Restricted { in_token: false, path: vec![PathSeg::KwSuper] }
    );
    assert_eq!(
        expansion.item.fields[1].vis,
        Visibility::Restricted { in_token: false, path: vec![PathSeg::KwCrate] }
    );
    assert_eq!(expansion.item.fields[2].vis, Visibility::Public);
}

#[test]
fn rewrite_keeps_the_bare_crate_marker() {
    let vis = Visibility::Restricted { in_token: false, path: vec![PathSeg::KwCrate] };
    assert_eq!(vis_prepend_super(&vis), Ok(vis));
}

#[test]
fn rewrite_drops_the_last_segment_of_a_crate_path() {
    let vis = Visibility::Restricted {
        in_token: true,
        path: vec![
            PathSeg::KwCrate,
            PathSeg::Named(String::from("a")),
            PathSeg::Named(String::from("b")),
        ],
    };
    assert_eq!(
        vis_prepend_super(&vis),
        Ok(Visibility::Restricted {
            in_token: true,
            path: vec![PathSeg::KwCrate, PathSeg::Named(String::from("a"))],
        })
    );
}

#[test]
fn rewrite_prepends_super_to_a_super_path() {
    let vis = Visibility::Restricted { in_token: false, path: vec![PathSeg::KwSuper] };
    assert_eq!(
        vis_prepend_super(&vis),
        Ok(Visibility::Restricted {
            in_token: true,
            path: vec![PathSeg::KwSuper, PathSeg::KwSuper],
        })
    );
}

#[test]
fn rewrite_turns_the_current_scope_into_the_enclosing_scope() {
    let vis = Visibility::Restricted { in_token: false, path: vec![PathSeg::KwSelfScope] };
    assert_eq!(
        vis_prepend_super(&vis),
        Ok(Visibility::Restricted { in_token: false, path: vec![PathSeg::KwSuper] })
    );
}

#[test]
fn rewrite_makes_module_private_explicitly_super() {
    assert_eq!(
        vis_prepend_super(&Visibility::Inherited),
        Ok(Visibility::Restricted { in_token: false, path: vec![PathSeg::KwSuper] })
    );
}

#[test]
fn rewrite_rejects_a_name_rooted_path() {
    let vis = Visibility::Restricted {
        in_token: true,
        path: vec![PathSeg::Named(String::from("elsewhere"))],
    };
    assert_eq!(vis_prepend_super(&vis), Err(ExpandError::UnexpectedVisibilityPath));
}
