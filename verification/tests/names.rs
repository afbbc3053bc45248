use framework::bitmap::{DRAWABLE_CONTAINER_HANDLE_SENTINEL, DRAWABLE_HANDLE_SENTINEL};
use framework::host::{LOG_ID_MAX, LOG_PRIORITY_ASSERT, LOG_PRIORITY_DEBUG, LOG_PRIORITY_ERROR, LOG_PRIORITY_INFO, LOG_PRIORITY_VERBOSE, LOG_PRIORITY_WARN};
use framework::input::{RBX_SURFACE_VIEW_CLASS, WINDOW_FORMAT_RGBA_8888};
use framework::memory::{memory_bytes_to_jlong};
use framework::native_load::{ART_LOAD_NATIVE_LIBRARY_SYMBOL};
use framework::resources::{ARSC_APP_COOKIE, ARSC_FRAMEWORK_COOKIE, ECLIPSE_ASSET_COOKIE, RES_VALUE_TYPE_STRING, STYLE_ASSET_COOKIE, STYLE_DATA, STYLE_NUM_ENTRIES, STYLE_RESOURCE_ID, STYLE_TYPE, TYPE_ATTRIBUTE, TYPE_NULL, TYPE_REFERENCE, TYPE_STRING, XML_BLOCK_COOKIE, arsc_cookie_for, arsc_cookie_for_package};
use framework::xml_registry::{XML_ATTR_NOT_FOUND, XML_EVENT_END_DOCUMENT, XML_EVENT_END_TAG, XML_EVENT_START_TAG, XML_EVENT_TEXT, XML_LINE_UNKNOWN};
use framework::names::{
    ACTIVITY_CLASS,
    ACTIVITY_FINISHING_FIELD_NAME,
    ACTIVITY_IS_IN_MULTI_WINDOW_MODE_NAME,
    ACTIVITY_IS_IN_MULTI_WINDOW_MODE_SIG,
    ACTIVITY_IS_TASK_ROOT_NAME,
    ACTIVITY_IS_TASK_ROOT_SIG,
    ACTIVITY_MANAGER_CLASS,
    ACTIVITY_NATIVE_FINISH_NAME,
    ACTIVITY_NATIVE_FINISH_SIG,
    ACTIVITY_NATIVE_RESUME_ACTIVITY_NAME,
    ACTIVITY_NATIVE_RESUME_ACTIVITY_SIG,
    ACTIVITY_NATIVE_START_ACTIVITY_NAME,
    ACTIVITY_NATIVE_START_ACTIVITY_SIG,
    AM_NATIVE_FILL_MEMORY_INFO_NAME,
    AM_NATIVE_FILL_MEMORY_INFO_SIG,
    AM_NATIVE_GET_LARGE_MEMORY_CLASS_NAME,
    AM_NATIVE_GET_LARGE_MEMORY_CLASS_SIG,
    AM_NATIVE_GET_MEMORY_CLASS_NAME,
    AM_NATIVE_GET_MEMORY_CLASS_SIG,
    AM_NATIVE_IS_LOW_RAM_DEVICE_NAME,
    AM_NATIVE_IS_LOW_RAM_DEVICE_SIG,
    APPLICATION_CLASS,
    ARRAY_LIST_SIG,
    ASSET_MANAGER_APPLY_STYLE_NAME,
    ASSET_MANAGER_APPLY_STYLE_SIG,
    ASSET_MANAGER_APPLY_THEME_STYLE_NAME,
    ASSET_MANAGER_APPLY_THEME_STYLE_SIG,
    ASSET_MANAGER_CLASS,
    ASSET_MANAGER_COPY_THEME_NAME,
    ASSET_MANAGER_COPY_THEME_SIG,
    ASSET_MANAGER_DESTROY_ASSET_NAME,
    ASSET_MANAGER_DESTROY_ASSET_SIG,
    ASSET_MANAGER_GET_ASSET_LENGTH_NAME,
    ASSET_MANAGER_GET_ASSET_LENGTH_SIG,
    ASSET_MANAGER_GET_ASSET_REMAINING_LENGTH_NAME,
    ASSET_MANAGER_GET_POOLED_STRING_NAME,
    ASSET_MANAGER_GET_POOLED_STRING_SIG,
    ASSET_MANAGER_GET_RESOURCE_IDENTIFIER_NAME,
    ASSET_MANAGER_GET_RESOURCE_IDENTIFIER_SIG,
    ASSET_MANAGER_GET_RESOURCE_NAME_NAME,
    ASSET_MANAGER_GET_RESOURCE_NAME_SIG,
    ASSET_MANAGER_GET_RESOURCE_PACKAGE_NAME_NAME,
    ASSET_MANAGER_GET_RESOURCE_PACKAGE_NAME_SIG,
    ASSET_MANAGER_INIT_NAME,
    ASSET_MANAGER_INIT_SIG,
    ASSET_MANAGER_LOAD_RESOURCE_VALUE_NAME,
    ASSET_MANAGER_LOAD_RESOURCE_VALUE_SIG,
    ASSET_MANAGER_LOAD_THEME_ATTRIBUTE_VALUE_NAME,
    ASSET_MANAGER_LOAD_THEME_ATTRIBUTE_VALUE_SIG,
    ASSET_MANAGER_NEW_THEME_NAME,
    ASSET_MANAGER_NEW_THEME_SIG,
    ASSET_MANAGER_OPEN_ASSET_FD_NAME,
    ASSET_MANAGER_OPEN_ASSET_FD_SIG,
    ASSET_MANAGER_OPEN_ASSET_NAME,
    ASSET_MANAGER_OPEN_ASSET_SIG,
    ASSET_MANAGER_OPEN_XML_ASSET_NAME,
    ASSET_MANAGER_OPEN_XML_ASSET_SIG,
    ASSET_MANAGER_READ_ASSET_CHAR_NAME,
    ASSET_MANAGER_READ_ASSET_CHAR_SIG,
    ASSET_MANAGER_READ_ASSET_NAME,
    ASSET_MANAGER_READ_ASSET_SIG,
    ASSET_MANAGER_RETRIEVE_ATTRIBUTES_NAME,
    ASSET_MANAGER_RETRIEVE_ATTRIBUTES_SIG,
    ASSET_MANAGER_SEEK_ASSET_NAME,
    ASSET_MANAGER_SEEK_ASSET_SIG,
    ASSET_MANAGER_SET_APK_ASSETS_NAME,
    ASSET_MANAGER_SET_APK_ASSETS_SIG,
    ASSET_MANAGER_SET_CONFIGURATION_NAME,
    ASSET_MANAGER_SET_CONFIGURATION_SIG,
    BITMAP_CLASS,
    BITMAP_CREATE_SNAPSHOT_NAME,
    BITMAP_CREATE_SNAPSHOT_SIG,
    BITMAP_CREATE_TEXTURE_NAME,
    BITMAP_CREATE_TEXTURE_SIG,
    BITMAP_FACTORY_CLASS,
    BITMAP_FACTORY_DECODE_STREAM_NAME,
    BITMAP_FACTORY_DECODE_STREAM_SIG,
    BITMAP_GET_HEIGHT_NAME,
    BITMAP_GET_HEIGHT_SIG,
    BITMAP_GET_WIDTH_NAME,
    BITMAP_GET_WIDTH_SIG,
    BITMAP_RECYCLE_NAME,
    BITMAP_RECYCLE_SIG,
    BITMAP_REF_TEXTURE_NAME,
    BITMAP_REF_TEXTURE_SIG,
    BUTTON_CLASS,
    BUTTON_SET_COMPOUND_DRAWABLES_NAME,
    BUTTON_SET_COMPOUND_DRAWABLES_SIG,
    CANVAS_CLASS,
    CANVAS_N_DRAW_CIRCLE_NAME,
    CANVAS_N_DRAW_CIRCLE_SIG,
    CANVAS_N_DRAW_COLOR_NAME,
    CANVAS_N_DRAW_COLOR_SIG,
    CANVAS_N_DRAW_PATH_NAME,
    CANVAS_N_DRAW_PATH_SIG,
    CANVAS_N_DRAW_RECT_NAME,
    CANVAS_N_DRAW_RECT_SIG,
    CHAR_SEQUENCE_SIG,
    CHECK_BOX_CLASS,
    CM_NATIVE_FLUSH_NAME,
    CM_NATIVE_FLUSH_SIG,
    CM_NATIVE_GET_COOKIE_NAME,
    CM_NATIVE_GET_COOKIE_SIG,
    CM_NATIVE_REMOVE_ALL_COOKIES_NAME,
    CM_NATIVE_REMOVE_SESSION_COOKIES_NAME,
    CM_NATIVE_SET_COOKIE_CB_SIG,
    CM_NATIVE_SET_COOKIE_NAME,
    CM_NATIVE_SET_COOKIE_SIG,
    CONTENT_PROVIDER_CLASS,
    CONTEXT_CLASS,
    COOKIE_MANAGER_CLASS,
    DRAWABLE_CLASS,
    DRAWABLE_CONTAINER_CLASS,
    DRAWABLE_CONTAINER_SELECT_CHILD_NAME,
    DRAWABLE_CONTAINER_SELECT_CHILD_SIG,
    DRAWABLE_NATIVE_CONSTRUCTOR_NAME,
    DRAWABLE_NATIVE_CONSTRUCTOR_SIG,
    DRAWABLE_NATIVE_DRAW_NAME,
    DRAWABLE_NATIVE_DRAW_SIG,
    DRAWABLE_NATIVE_INVALIDATE_NAME,
    DRAWABLE_NATIVE_INVALIDATE_SIG,
    DRAWABLE_NATIVE_REF_NAME,
    DRAWABLE_NATIVE_REF_SIG,
    DRAWABLE_NATIVE_UNREF_NAME,
    DRAWABLE_NATIVE_UNREF_SIG,
    DRAWABLE_PAINTABLE_FROM_PATH_NAME,
    DRAWABLE_PAINTABLE_FROM_PATH_SIG,
    ECLIPSE_BRIDGE_PROBE_CLASS,
    EDIT_TEXT_ADD_TEXT_CHANGED_LISTENER_NAME,
    EDIT_TEXT_CLASS,
    EDIT_TEXT_REMOVE_TEXT_CHANGED_LISTENER_NAME,
    EDIT_TEXT_SET_ON_EDITOR_ACTION_LISTENER_NAME,
    EDIT_TEXT_SET_ON_EDITOR_ACTION_LISTENER_SIG,
    EDIT_TEXT_TEXT_CHANGED_LISTENER_SIG,
    ELAPSED_REALTIME_NAME,
    ELAPSED_REALTIME_NANOS_NAME,
    ELAPSED_REALTIME_NANOS_SIG,
    ELAPSED_REALTIME_SIG,
    ENVIRONMENT_CLASS,
    GET_APP_DATA_DIR_NAME,
    GET_APP_DATA_DIR_SIG,
    IMAGE_BUTTON_CLASS,
    IMAGE_BUTTON_SET_ON_CLICK_LISTENER_NAME,
    IMAGE_BUTTON_SET_ON_CLICK_LISTENER_SIG,
    IMAGE_VIEW_CLASS,
    IMAGE_VIEW_SET_DRAWABLE_NAME,
    IMAGE_VIEW_SET_DRAWABLE_SIG,
    IMAGE_VIEW_SET_SCALE_TYPE_NAME,
    IMAGE_VIEW_SET_SCALE_TYPE_SIG,
    IMM_NATIVE_HIDE_SOFT_INPUT_NAME,
    IMM_NATIVE_HIDE_SOFT_INPUT_SIG,
    IMM_NATIVE_INIT_NAME,
    IMM_NATIVE_INIT_SIG,
    IMM_NATIVE_SHOW_SOFT_INPUT_NAME,
    IMM_NATIVE_SHOW_SOFT_INPUT_SIG,
    INPUT_METHOD_MANAGER_CLASS,
    INT_SIG,
    JAVASCRIPT_INTERFACE_CLASS,
    KEY_EVENT_CLASS,
    KEY_EVENT_CONSTRUCTOR_SIG,
    KEY_EVENT_UNICODE_VALUE_FIELD,
    LOG_CLASS,
    LOOPER_CLASS,
    MATRIX_CLASS,
    MATRIX_FINALIZER_NAME,
    MATRIX_FINALIZER_SIG,
    MATRIX_NATIVE_CREATE_NAME,
    MATRIX_NATIVE_CREATE_SIG,
    MEMORY_INFO_AVAIL_MEM_FIELD,
    MEMORY_INFO_FOREGROUND_THRESHOLD_FIELD,
    MEMORY_INFO_HIDDEN_THRESHOLD_FIELD,
    MEMORY_INFO_LOW_MEMORY_FIELD,
    MEMORY_INFO_SECONDARY_THRESHOLD_FIELD,
    MEMORY_INFO_THRESHOLD_FIELD,
    MEMORY_INFO_TOTAL_MEM_FIELD,
    MEMORY_INFO_VISIBLE_THRESHOLD_FIELD,
    MESSAGE_QUEUE_CLASS,
    MESSAGE_QUEUE_NATIVE_DESTROY_NAME,
    MESSAGE_QUEUE_NATIVE_DESTROY_SIG,
    MESSAGE_QUEUE_NATIVE_INIT_NAME,
    MESSAGE_QUEUE_NATIVE_INIT_SIG,
    MESSAGE_QUEUE_NATIVE_IS_IDLING_NAME,
    MESSAGE_QUEUE_NATIVE_IS_IDLING_SIG,
    MESSAGE_QUEUE_NATIVE_POLL_ONCE_NAME,
    MESSAGE_QUEUE_NATIVE_POLL_ONCE_SIG,
    MESSAGE_QUEUE_NATIVE_WAKE_NAME,
    MESSAGE_QUEUE_NATIVE_WAKE_SIG,
    MOTION_EVENT_CLASS,
    MOTION_EVENT_OBTAIN_NAME,
    MOTION_EVENT_OBTAIN_SIG,
    MOTION_EVENT_RECYCLE_NAME,
    MOTION_EVENT_RECYCLE_SIG,
    NATIVE_GET_APK_PATH_NAME,
    NATIVE_GET_APK_PATH_SIG,
    NATIVE_LOAD_NAME,
    NATIVE_LOAD_SIG,
    NATIVE_UPDATE_CONFIG_NAME,
    NATIVE_UPDATE_CONFIG_SIG,
    NINE_PATCH_CREATE_FROM_CHUNK_SIG,
    NINE_PATCH_CREATE_FROM_PATH_SIG,
    NINE_PATCH_CREATE_NAME,
    NINE_PATCH_DRAWABLE_CLASS,
    NINE_PATCH_SET_TINT_NAME,
    NINE_PATCH_SET_TINT_SIG,
    PAINT_CLASS,
    PAINT_NATIVE_CLONE_NAME,
    PAINT_NATIVE_CLONE_SIG,
    PAINT_NATIVE_CREATE_NAME,
    PAINT_NATIVE_CREATE_SIG,
    PAINT_NATIVE_GET_ALPHA_NAME,
    PAINT_NATIVE_GET_ALPHA_SIG,
    PAINT_NATIVE_GET_COLOR_NAME,
    PAINT_NATIVE_GET_COLOR_SIG,
    PAINT_NATIVE_GET_STROKE_CAP_NAME,
    PAINT_NATIVE_GET_STROKE_CAP_SIG,
    PAINT_NATIVE_GET_STROKE_JOIN_NAME,
    PAINT_NATIVE_GET_STROKE_JOIN_SIG,
    PAINT_NATIVE_GET_STROKE_WIDTH_NAME,
    PAINT_NATIVE_GET_STROKE_WIDTH_SIG,
    PAINT_NATIVE_GET_STYLE_NAME,
    PAINT_NATIVE_GET_STYLE_SIG,
    PAINT_NATIVE_GET_TEXT_SIZE_NAME,
    PAINT_NATIVE_GET_TEXT_SIZE_SIG,
    PAINT_NATIVE_RECYCLE_NAME,
    PAINT_NATIVE_RECYCLE_SIG,
    PAINT_NATIVE_SET_ALPHA_NAME,
    PAINT_NATIVE_SET_ALPHA_SIG,
    PAINT_NATIVE_SET_COLOR_FILTER_NAME,
    PAINT_NATIVE_SET_COLOR_FILTER_SIG,
    PAINT_NATIVE_SET_COLOR_NAME,
    PAINT_NATIVE_SET_COLOR_SIG,
    PAINT_NATIVE_SET_STROKE_CAP_NAME,
    PAINT_NATIVE_SET_STROKE_CAP_SIG,
    PAINT_NATIVE_SET_STROKE_JOIN_NAME,
    PAINT_NATIVE_SET_STROKE_JOIN_SIG,
    PAINT_NATIVE_SET_STROKE_WIDTH_NAME,
    PAINT_NATIVE_SET_STROKE_WIDTH_SIG,
    PAINT_NATIVE_SET_STYLE_NAME,
    PAINT_NATIVE_SET_STYLE_SIG,
    PAINT_NATIVE_SET_TEXT_ALIGN_NAME,
    PAINT_NATIVE_SET_TEXT_ALIGN_SIG,
    PAINT_NATIVE_SET_TEXT_SIZE_NAME,
    PAINT_NATIVE_SET_TEXT_SIZE_SIG,
    PATH_CLASS,
    PATH_NATIVE_CLOSE_NAME,
    PATH_NATIVE_CLOSE_SIG,
    PATH_NATIVE_CREATE_BUILDER_NAME,
    PATH_NATIVE_CREATE_BUILDER_SIG,
    PATH_NATIVE_CREATE_PATH_NAME,
    PATH_NATIVE_CREATE_PATH_SIG,
    PATH_NATIVE_CUBIC_TO_NAME,
    PATH_NATIVE_CUBIC_TO_SIG,
    PATH_NATIVE_LINE_TO_NAME,
    PATH_NATIVE_LINE_TO_SIG,
    PATH_NATIVE_MOVE_TO_NAME,
    PATH_NATIVE_MOVE_TO_SIG,
    PATH_NATIVE_QUAD_TO_NAME,
    PATH_NATIVE_QUAD_TO_SIG,
    PATH_NATIVE_REF_PATH_NAME,
    PATH_NATIVE_REF_PATH_SIG,
    PATH_NATIVE_RESET_NAME,
    PATH_NATIVE_RESET_SIG,
    PRINTLN_NATIVE_NAME,
    PRINTLN_NATIVE_SIG,
    PROCESS_CLASS,
    PROCESS_GET_ELAPSED_CPU_TIME_NAME,
    PROCESS_GET_ELAPSED_CPU_TIME_SIG,
    PROGRESS_BAR_CLASS,
    PROGRESS_BAR_SET_INDETERMINATE_NAME,
    PROGRESS_BAR_SET_INDETERMINATE_SIG,
    PROGRESS_NATIVE_SET_PROGRESS_NAME,
    PROGRESS_NATIVE_SET_PROGRESS_SIG,
    RADIO_BUTTON_CLASS,
    RADIO_BUTTON_SET_TEXT_NAME,
    RADIO_BUTTON_SET_TEXT_SIG,
    RUNTIME_CLASS,
    SCREEN_HEIGHT_DP_FIELD,
    SCREEN_WIDTH_DP_FIELD,
    SCROLL_VIEW_CLASS,
    SEEK_BAR_CLASS,
    SEEK_BAR_SET_MAX_NAME,
    SEEK_BAR_SET_MAX_SIG,
    SENSOR_MANAGER_CLASS,
    SENSOR_MANAGER_REGISTER_NAME,
    SENSOR_MANAGER_REGISTER_SIG,
    SPINNER_CLASS,
    SPINNER_SET_ADAPTER_NAME,
    SPINNER_SET_ADAPTER_SIG,
    SURFACE_VIEW_CLASS,
    SYSTEM_CLOCK_CLASS,
    TEXT_VIEW_CLASS,
    TEXT_VIEW_NATIVE_SET_COMPOUND_DRAWABLES_NAME,
    TEXT_VIEW_NATIVE_SET_COMPOUND_DRAWABLES_SIG,
    TEXT_VIEW_NATIVE_SET_MARKUP_NAME,
    TEXT_VIEW_NATIVE_SET_MARKUP_SIG,
    TEXT_VIEW_NATIVE_SET_TEXT_COLOR_NAME,
    TEXT_VIEW_NATIVE_SET_TEXT_COLOR_SIG,
    TEXT_VIEW_NATIVE_SET_TEXT_NAME,
    TEXT_VIEW_NATIVE_SET_TEXT_SIG,
    TEXT_VIEW_SET_TEXT_SIZE_NAME,
    TEXT_VIEW_SET_TEXT_SIZE_SIG,
    UPTIME_MILLIS_NAME,
    UPTIME_MILLIS_SIG,
    VIBRATOR_CLASS,
    VIBRATOR_NATIVE_CONSTRUCTOR_NAME,
    VIBRATOR_NATIVE_CONSTRUCTOR_SIG,
    VIBRATOR_NATIVE_VIBRATE_NAME,
    VIBRATOR_NATIVE_VIBRATE_SIG,
    VIEW_CLASS,
    VIEW_DISPATCH_KEY_EVENT_NAME,
    VIEW_DISPATCH_KEY_EVENT_SIG,
    VIEW_DISPATCH_TOUCH_EVENT_NAME,
    VIEW_DISPATCH_TOUCH_EVENT_SIG,
    VIEW_GET_SUGGESTED_MIN_HEIGHT_NAME,
    VIEW_GET_SUGGESTED_MIN_SIG,
    VIEW_GET_SUGGESTED_MIN_WIDTH_NAME,
    VIEW_GET_WINDOW_VISIBLE_DISPLAY_FRAME_NAME,
    VIEW_GET_WINDOW_VISIBLE_DISPLAY_FRAME_SIG,
    VIEW_GROUP_CLASS,
    VIEW_GROUP_NATIVE_ADD_VIEW_NAME,
    VIEW_GROUP_NATIVE_ADD_VIEW_SIG,
    VIEW_GROUP_NATIVE_REMOVE_VIEW_NAME,
    VIEW_GROUP_NATIVE_REMOVE_VIEW_SIG,
    VIEW_NATIVE_ADD_CLASS_NAME,
    VIEW_NATIVE_ADD_CLASS_SIG,
    VIEW_NATIVE_CONSTRUCTOR_NAME,
    VIEW_NATIVE_CONSTRUCTOR_SIG,
    VIEW_NATIVE_DESTRUCTOR_NAME,
    VIEW_NATIVE_DESTRUCTOR_SIG,
    VIEW_NATIVE_DRAW_BACKGROUND_NAME,
    VIEW_NATIVE_DRAW_BACKGROUND_SIG,
    VIEW_NATIVE_DRAW_CONTENT_NAME,
    VIEW_NATIVE_DRAW_CONTENT_SIG,
    VIEW_NATIVE_GET_WINDOW_NAME,
    VIEW_NATIVE_GET_WINDOW_SIG,
    VIEW_NATIVE_INVALIDATE_NAME,
    VIEW_NATIVE_INVALIDATE_SIG,
    VIEW_NATIVE_IS_ATTACHED_TO_WINDOW_NAME,
    VIEW_NATIVE_IS_ATTACHED_TO_WINDOW_SIG,
    VIEW_NATIVE_IS_FOCUSED_NAME,
    VIEW_NATIVE_IS_FOCUSED_SIG,
    VIEW_NATIVE_KEEP_SCREEN_ON_NAME,
    VIEW_NATIVE_KEEP_SCREEN_ON_SIG,
    VIEW_NATIVE_LAYOUT_NAME,
    VIEW_NATIVE_LAYOUT_SIG,
    VIEW_NATIVE_MEASURE_NAME,
    VIEW_NATIVE_MEASURE_SIG,
    VIEW_NATIVE_QUEUE_ALLOCATE_NAME,
    VIEW_NATIVE_QUEUE_ALLOCATE_SIG,
    VIEW_NATIVE_REMOVE_CLASSES_NAME,
    VIEW_NATIVE_REMOVE_CLASSES_SIG,
    VIEW_NATIVE_REQUEST_LAYOUT_NAME,
    VIEW_NATIVE_REQUEST_LAYOUT_SIG,
    VIEW_NATIVE_SET_BACKGROUND_DRAWABLE_NAME,
    VIEW_NATIVE_SET_BACKGROUND_DRAWABLE_SIG,
    VIEW_NATIVE_SET_FULLSCREEN_NAME,
    VIEW_NATIVE_SET_FULLSCREEN_SIG,
    VIEW_NATIVE_SET_LAYOUT_PARAMS_NAME,
    VIEW_NATIVE_SET_LAYOUT_PARAMS_SIG,
    VIEW_NATIVE_SET_PADDING_NAME,
    VIEW_NATIVE_SET_PADDING_SIG,
    VIEW_NATIVE_SET_VISIBILITY_NAME,
    VIEW_NATIVE_SET_VISIBILITY_SIG,
    VIEW_SET_BACKGROUND_COLOR_NAME,
    VIEW_SET_BACKGROUND_COLOR_SIG,
    VIEW_SET_MEASURED_DIMENSION_NAME,
    VIEW_SET_MEASURED_DIMENSION_SIG,
    VIEW_SET_ON_CLICK_LISTENER_NAME,
    VIEW_SET_ON_CLICK_LISTENER_SIG,
    VIEW_SET_ON_LONG_CLICK_LISTENER_NAME,
    VIEW_SET_ON_LONG_CLICK_LISTENER_SIG,
    VIEW_SET_ON_TOUCH_LISTENER_NAME,
    VIEW_SET_ON_TOUCH_LISTENER_SIG,
    VIEW_TREE_OBSERVER_CLASS,
    VIEW_TREE_OBSERVER_SET_HAVE_LISTENERS_NAME,
    VIEW_TREE_OBSERVER_SET_HAVE_LISTENERS_SIG,
    VIEW_WIDGET_FIELD_NAME,
    VIEW_WIDGET_FIELD_SIG,
    WEB_SETTINGS_CLASS,
    WEB_SETTINGS_NATIVE_GET_USER_AGENT_STRING_NAME,
    WEB_SETTINGS_NATIVE_GET_USER_AGENT_STRING_SIG,
    WEB_SETTINGS_NATIVE_SET_USER_AGENT_STRING_NAME,
    WEB_SETTINGS_NATIVE_SET_USER_AGENT_STRING_SIG,
    WEB_VIEW_CLASS,
    WEB_VIEW_INTERNAL_LOAD_CHANGED_NAME,
    WEB_VIEW_NATIVE_ADD_JAVASCRIPT_INTERFACE_NAME,
    WEB_VIEW_NATIVE_ADD_JAVASCRIPT_INTERFACE_SIG,
    WEB_VIEW_NATIVE_CAN_GO_BACK_NAME,
    WEB_VIEW_NATIVE_CAN_GO_BACK_SIG,
    WEB_VIEW_NATIVE_EVALUATE_JAVASCRIPT_NAME,
    WEB_VIEW_NATIVE_EVALUATE_JAVASCRIPT_SIG,
    WEB_VIEW_NATIVE_GO_BACK_NAME,
    WEB_VIEW_NATIVE_GO_BACK_SIG,
    WEB_VIEW_NATIVE_LOAD_DATA_WITH_BASE_URL_NAME,
    WEB_VIEW_NATIVE_LOAD_DATA_WITH_BASE_URL_SIG,
    WEB_VIEW_NATIVE_LOAD_URL_NAME,
    WEB_VIEW_NATIVE_LOAD_URL_SIG,
    WIDGET_NATIVE_SET_TEXT_NAME,
    WIDGET_NATIVE_SET_TEXT_SIG,
    WINDOW_CLASS,
    WINDOW_REMOVE_GTK_BACKGROUND_NAME,
    WINDOW_REMOVE_GTK_BACKGROUND_SIG,
    WINDOW_SET_JOBJECT_NAME,
    WINDOW_SET_JOBJECT_SIG,
    WINDOW_SET_LAYOUT_NAME,
    WINDOW_SET_LAYOUT_SIG,
    WINDOW_SET_TITLE_NAME,
    WINDOW_SET_TITLE_SIG,
    WINDOW_SET_WIDGET_AS_ROOT_NAME,
    WINDOW_SET_WIDGET_AS_ROOT_SIG,
    XML_BLOCK_CLASS,
    XML_BLOCK_CREATE_PARSE_STATE_NAME,
    XML_BLOCK_CREATE_PARSE_STATE_SIG,
    XML_BLOCK_DESTROY_NAME,
    XML_BLOCK_DESTROY_PARSE_STATE_NAME,
    XML_BLOCK_DESTROY_PARSE_STATE_SIG,
    XML_BLOCK_DESTROY_SIG,
    XML_BLOCK_GET_ATTR_COUNT_NAME,
    XML_BLOCK_GET_ATTR_COUNT_SIG,
    XML_BLOCK_GET_ATTR_DATA_NAME,
    XML_BLOCK_GET_ATTR_DATA_SIG,
    XML_BLOCK_GET_ATTR_DATA_TYPE_NAME,
    XML_BLOCK_GET_ATTR_DATA_TYPE_SIG,
    XML_BLOCK_GET_ATTR_INDEX_NAME,
    XML_BLOCK_GET_ATTR_INDEX_SIG,
    XML_BLOCK_GET_ATTR_RESOURCE_NAME,
    XML_BLOCK_GET_ATTR_RESOURCE_SIG,
    XML_BLOCK_GET_ATTR_STRING_VALUE_NAME,
    XML_BLOCK_GET_ATTR_STRING_VALUE_SIG,
    XML_BLOCK_GET_LINE_NUMBER_NAME,
    XML_BLOCK_GET_LINE_NUMBER_SIG,
    XML_BLOCK_GET_NAME_NAME,
    XML_BLOCK_GET_NAME_SIG,
    XML_BLOCK_GET_POOLED_STRING_NAME,
    XML_BLOCK_GET_POOLED_STRING_SIG,
    XML_BLOCK_NEXT_NAME,
    XML_BLOCK_NEXT_SIG,
};

#[test]
fn bootstrap_class_constants_are_slashed_internal_names() {
    assert_eq!(CONTEXT_CLASS, "android/content/Context");
    assert_eq!(APPLICATION_CLASS, "android/app/Application");
}

#[test]
fn bitmap_native_names_sigs_and_classes_match_bitmap_java() {
    assert_eq!(
        BITMAP_FACTORY_CLASS,
        "android/graphics/BitmapFactory"
    );
    assert_eq!(BITMAP_CLASS, "android/graphics/Bitmap");
    assert_eq!(
        BITMAP_FACTORY_DECODE_STREAM_NAME,
        "nativeDecodeStream"
    );
    assert_eq!(
        BITMAP_FACTORY_DECODE_STREAM_SIG,
        "(Ljava/io/InputStream;[BLandroid/graphics/Rect;Landroid/graphics/BitmapFactory$Options;)J"
    );
    assert_eq!(BITMAP_GET_WIDTH_NAME, "native_get_width");
    assert_eq!(BITMAP_GET_WIDTH_SIG, "(J)I");
    assert_eq!(BITMAP_GET_HEIGHT_NAME, "native_get_height");
    assert_eq!(BITMAP_GET_HEIGHT_SIG, "(J)I");

    assert_eq!(BITMAP_RECYCLE_NAME, "native_recycle");
    assert_eq!(BITMAP_RECYCLE_SIG, "(JJ)V");
    assert_eq!(BITMAP_CREATE_TEXTURE_NAME, "native_create_texture");
    assert_eq!(BITMAP_CREATE_TEXTURE_SIG, "(JIIII)J");
    assert_eq!(
        BITMAP_CREATE_SNAPSHOT_NAME,
        "native_create_snapshot"
    );
    assert_eq!(BITMAP_CREATE_SNAPSHOT_SIG, "(J)J");
    assert_eq!(BITMAP_REF_TEXTURE_NAME, "native_ref_texture");
    assert_eq!(BITMAP_REF_TEXTURE_SIG, "(J)J");
}

#[test]
fn context_native_names_and_sigs_match_context_java() {
    assert_eq!(NATIVE_GET_APK_PATH_NAME, "native_get_apk_path");
    assert_eq!(NATIVE_GET_APK_PATH_SIG, "()Ljava/lang/String;");
    assert_eq!(NATIVE_UPDATE_CONFIG_NAME, "native_updateConfig");
    assert_eq!(
        NATIVE_UPDATE_CONFIG_SIG,
        "(Landroid/content/res/Configuration;)V"
    );

    assert_eq!(SCREEN_WIDTH_DP_FIELD, "screenWidthDp");
    assert_eq!(SCREEN_HEIGHT_DP_FIELD, "screenHeightDp");
    assert_eq!(INT_SIG, "I");
}

#[test]
fn log_native_name_sig_and_class_match_log_java() {
    assert_eq!(LOG_CLASS, "android/util/Log");
    assert_eq!(PRINTLN_NATIVE_NAME, "println_native");
    assert_eq!(
        PRINTLN_NATIVE_SIG,
        "(IILjava/lang/String;Ljava/lang/String;)I"
    );

    assert_eq!(LOG_ID_MAX, 4);

    assert_eq!(LOG_PRIORITY_VERBOSE, 2);
    assert_eq!(LOG_PRIORITY_DEBUG, 3);
    assert_eq!(LOG_PRIORITY_INFO, 4);
    assert_eq!(LOG_PRIORITY_WARN, 5);
    assert_eq!(LOG_PRIORITY_ERROR, 6);
    assert_eq!(LOG_PRIORITY_ASSERT, 7);
}

#[test]
fn asset_manager_init_name_sig_and_class_match_asset_manager_java() {
    assert_eq!(
        ASSET_MANAGER_CLASS,
        "android/content/res/AssetManager"
    );
    assert_eq!(ASSET_MANAGER_INIT_NAME, "init");
    assert_eq!(ASSET_MANAGER_INIT_SIG, "(I)V");

    assert_eq!(
        ASSET_MANAGER_SET_APK_ASSETS_NAME,
        "native_setApkAssets"
    );
    assert_eq!(
        ASSET_MANAGER_SET_APK_ASSETS_SIG,
        "([Ljava/lang/Object;I)V"
    );

    assert_eq!(
        ASSET_MANAGER_SET_CONFIGURATION_NAME,
        "setConfiguration"
    );
    assert_eq!(
        ASSET_MANAGER_SET_CONFIGURATION_SIG,
        "(IILjava/lang/String;IIIIIIIIIIIIII)V"
    );

    assert_eq!(
        ASSET_MANAGER_OPEN_XML_ASSET_NAME,
        "openXmlAssetNative"
    );
    assert_eq!(
        ASSET_MANAGER_OPEN_XML_ASSET_SIG,
        "(ILjava/lang/String;)J"
    );

    assert_eq!(
        ASSET_MANAGER_RETRIEVE_ATTRIBUTES_NAME,
        "retrieveAttributes"
    );
    assert_eq!(ASSET_MANAGER_RETRIEVE_ATTRIBUTES_SIG, "(J[IIJJ)Z");

    assert_eq!(ASSET_MANAGER_NEW_THEME_NAME, "newTheme");
    assert_eq!(ASSET_MANAGER_NEW_THEME_SIG, "()J");

    assert_eq!(
        ASSET_MANAGER_APPLY_THEME_STYLE_NAME,
        "applyThemeStyle"
    );
    assert_eq!(ASSET_MANAGER_APPLY_THEME_STYLE_SIG, "(JIZ)V");

    assert_eq!(ASSET_MANAGER_COPY_THEME_NAME, "copyTheme");
    assert_eq!(ASSET_MANAGER_COPY_THEME_SIG, "(JJ)V");

    assert_eq!(ASSET_MANAGER_APPLY_STYLE_NAME, "applyStyle");
    assert_eq!(ASSET_MANAGER_APPLY_STYLE_SIG, "(JJII[IIJJ)V");

    assert_eq!(
        ASSET_MANAGER_GET_RESOURCE_NAME_NAME,
        "getResourceName"
    );
    assert_eq!(
        ASSET_MANAGER_GET_RESOURCE_NAME_SIG,
        "(I)Ljava/lang/String;"
    );

    assert_eq!(
        ASSET_MANAGER_LOAD_RESOURCE_VALUE_NAME,
        "loadResourceValue"
    );
    assert_eq!(
        ASSET_MANAGER_LOAD_RESOURCE_VALUE_SIG,
        "(ISLandroid/util/TypedValue;Z)I"
    );

    assert_eq!(
        ASSET_MANAGER_LOAD_THEME_ATTRIBUTE_VALUE_NAME,
        "loadThemeAttributeValue"
    );
    assert_eq!(
        ASSET_MANAGER_LOAD_THEME_ATTRIBUTE_VALUE_SIG,
        "(JILandroid/util/TypedValue;Z)I"
    );

    assert_eq!(
        ASSET_MANAGER_GET_POOLED_STRING_NAME,
        "getPooledString"
    );
    assert_eq!(
        ASSET_MANAGER_GET_POOLED_STRING_SIG,
        "(II)Ljava/lang/CharSequence;"
    );
    assert_eq!(CHAR_SEQUENCE_SIG, "Ljava/lang/CharSequence;");
    assert_eq!(RES_VALUE_TYPE_STRING, 0x03);
    assert_eq!(ECLIPSE_ASSET_COOKIE, 1);

    assert_eq!(ARSC_APP_COOKIE, 1);
    assert_eq!(ARSC_FRAMEWORK_COOKIE, 2);
    assert_eq!(arsc_cookie_for(0x7f08_0173), ARSC_APP_COOKIE);
    assert_eq!(arsc_cookie_for(0x0108_0000), ARSC_FRAMEWORK_COOKIE);
    assert_eq!(arsc_cookie_for_package(0x7f), ARSC_APP_COOKIE);
    assert_eq!(arsc_cookie_for_package(0x01), ARSC_FRAMEWORK_COOKIE);

    assert_eq!(STYLE_NUM_ENTRIES, 7);
    assert_eq!(STYLE_TYPE, 0);
    assert_eq!(STYLE_DATA, 1);
    assert_eq!(STYLE_ASSET_COOKIE, 2);
    assert_eq!(STYLE_RESOURCE_ID, 3);
    assert_eq!(TYPE_NULL, 0);
    assert_eq!(TYPE_REFERENCE, 0x01);
    assert_eq!(TYPE_ATTRIBUTE, 0x02);
    assert_eq!(TYPE_STRING, 0x03);
    assert_eq!(XML_BLOCK_COOKIE, -1);
}

#[test]
fn xml_block_native_names_sigs_and_class_match_art_reported() {
    assert_eq!(XML_BLOCK_CLASS, "android/content/res/XmlBlock");
    assert_eq!(
        XML_BLOCK_CREATE_PARSE_STATE_NAME,
        "nativeCreateParseState"
    );
    assert_eq!(XML_BLOCK_CREATE_PARSE_STATE_SIG, "(J)J");
    assert_eq!(XML_BLOCK_NEXT_NAME, "nativeNext");
    assert_eq!(XML_BLOCK_NEXT_SIG, "(J)I");
    assert_eq!(
        XML_BLOCK_DESTROY_PARSE_STATE_NAME,
        "nativeDestroyParseState"
    );
    assert_eq!(XML_BLOCK_DESTROY_PARSE_STATE_SIG, "(J)V");
    assert_eq!(XML_BLOCK_GET_NAME_NAME, "nativeGetName");
    assert_eq!(XML_BLOCK_GET_NAME_SIG, "(J)Ljava/lang/String;");
    assert_eq!(XML_BLOCK_DESTROY_NAME, "nativeDestroy");
    assert_eq!(XML_BLOCK_DESTROY_SIG, "(J)V");
    assert_eq!(
        XML_BLOCK_GET_ATTR_INDEX_NAME,
        "nativeGetAttributeIndex"
    );
    assert_eq!(
        XML_BLOCK_GET_ATTR_INDEX_SIG,
        "(JLjava/lang/String;Ljava/lang/String;)I"
    );
    assert_eq!(
        XML_BLOCK_GET_ATTR_STRING_VALUE_NAME,
        "nativeGetAttributeStringValue"
    );
    assert_eq!(
        XML_BLOCK_GET_ATTR_STRING_VALUE_SIG,
        "(JI)Ljava/lang/String;"
    );

    assert_eq!(
        XML_BLOCK_GET_ATTR_COUNT_NAME,
        "nativeGetAttributeCount"
    );
    assert_eq!(XML_BLOCK_GET_ATTR_COUNT_SIG, "(J)I");

    assert_eq!(
        XML_BLOCK_GET_ATTR_RESOURCE_NAME,
        "nativeGetAttributeResource"
    );
    assert_eq!(XML_BLOCK_GET_ATTR_RESOURCE_SIG, "(JI)I");

    assert_eq!(
        XML_BLOCK_GET_ATTR_DATA_TYPE_NAME,
        "nativeGetAttributeDataType"
    );
    assert_eq!(XML_BLOCK_GET_ATTR_DATA_TYPE_SIG, "(JI)I");
    assert_eq!(
        XML_BLOCK_GET_ATTR_DATA_NAME,
        "nativeGetAttributeData"
    );
    assert_eq!(XML_BLOCK_GET_ATTR_DATA_SIG, "(JI)I");

    assert_eq!(
        XML_BLOCK_GET_LINE_NUMBER_NAME,
        "nativeGetLineNumber"
    );
    assert_eq!(XML_BLOCK_GET_LINE_NUMBER_SIG, "(J)I");
    assert_eq!(
        XML_BLOCK_GET_POOLED_STRING_NAME,
        "nativeGetPooledString"
    );
    assert_eq!(
        XML_BLOCK_GET_POOLED_STRING_SIG,
        "(JI)Ljava/lang/String;"
    );
    assert_eq!(XML_LINE_UNKNOWN, -1);

    assert_eq!(XML_EVENT_END_DOCUMENT, 1);
    assert_eq!(XML_EVENT_START_TAG, 2);
    assert_eq!(XML_EVENT_END_TAG, 3);
    assert_eq!(XML_EVENT_TEXT, 4);
    assert_eq!(XML_ATTR_NOT_FOUND, -1);
}

#[test]
fn environment_native_name_sig_and_class_match_environment_java() {
    assert_eq!(ENVIRONMENT_CLASS, "android/os/Environment");
    assert_eq!(GET_APP_DATA_DIR_NAME, "native_get_app_data_dir");
    assert_eq!(GET_APP_DATA_DIR_SIG, "()Ljava/lang/String;");
}

#[test]
fn system_clock_native_name_sig_and_class_match_system_clock_java() {
    assert_eq!(SYSTEM_CLOCK_CLASS, "android/os/SystemClock");
    assert_eq!(ELAPSED_REALTIME_NAME, "elapsedRealtime");
    assert_eq!(ELAPSED_REALTIME_SIG, "()J");
    assert_eq!(ELAPSED_REALTIME_NANOS_NAME, "elapsedRealtimeNanos");
    assert_eq!(ELAPSED_REALTIME_NANOS_SIG, "()J");

    assert_eq!(UPTIME_MILLIS_NAME, "uptimeMillis");
    assert_eq!(UPTIME_MILLIS_SIG, "()J");
}

#[test]
fn runtime_native_load_name_sig_and_class_match_art() {
    assert_eq!(RUNTIME_CLASS, "java/lang/Runtime");
    assert_eq!(NATIVE_LOAD_NAME, "nativeLoad");
    assert_eq!(
        NATIVE_LOAD_SIG,
        "(Ljava/lang/String;Ljava/lang/ClassLoader;Ljava/lang/Class;)Ljava/lang/String;"
    );

    assert!(ART_LOAD_NATIVE_LIBRARY_SYMBOL.as_bytes().starts_with(b"_ZN3art9JavaVMExt17LoadNativeLibrary"));
    assert_eq!(*ART_LOAD_NATIVE_LIBRARY_SYMBOL.as_bytes().last().unwrap(), 0u8);
}

#[test]
fn asset_manager_get_resource_package_name_name_sig_match_art_reported() {
    assert_eq!(
        ASSET_MANAGER_GET_RESOURCE_PACKAGE_NAME_NAME,
        "getResourcePackageName"
    );
    assert_eq!(
        ASSET_MANAGER_GET_RESOURCE_PACKAGE_NAME_SIG,
        "(I)Ljava/lang/String;"
    );
}

#[test]
fn asset_manager_get_resource_identifier_name_sig_match_art_reported() {
    assert_eq!(
        ASSET_MANAGER_GET_RESOURCE_IDENTIFIER_NAME,
        "getResourceIdentifier"
    );
    assert_eq!(
        ASSET_MANAGER_GET_RESOURCE_IDENTIFIER_SIG,
        "(Ljava/lang/String;Ljava/lang/String;Ljava/lang/String;)I"
    );
}

#[test]
fn asset_manager_stream_native_names_and_sigs_are_the_classic_aosp_set() {
    assert_eq!(ASSET_MANAGER_OPEN_ASSET_NAME, "openAsset");
    assert_eq!(
        ASSET_MANAGER_OPEN_ASSET_SIG,
        "(Ljava/lang/String;I)J"
    );
    assert_eq!(ASSET_MANAGER_READ_ASSET_NAME, "readAsset");

    assert_eq!(ASSET_MANAGER_READ_ASSET_SIG, "(J[BJJ)I");

    assert_eq!(ASSET_MANAGER_READ_ASSET_CHAR_NAME, "readAssetChar");
    assert_eq!(ASSET_MANAGER_READ_ASSET_CHAR_SIG, "(J)I");
    assert_eq!(ASSET_MANAGER_SEEK_ASSET_NAME, "seekAsset");
    assert_eq!(ASSET_MANAGER_SEEK_ASSET_SIG, "(JJI)J");
    assert_eq!(
        ASSET_MANAGER_GET_ASSET_LENGTH_NAME,
        "getAssetLength"
    );
    assert_eq!(ASSET_MANAGER_GET_ASSET_LENGTH_SIG, "(J)J");
    assert_eq!(
        ASSET_MANAGER_GET_ASSET_REMAINING_LENGTH_NAME,
        "getAssetRemainingLength"
    );
    assert_eq!(ASSET_MANAGER_DESTROY_ASSET_NAME, "destroyAsset");
    assert_eq!(ASSET_MANAGER_DESTROY_ASSET_SIG, "(J)V");

    assert_eq!(ASSET_MANAGER_OPEN_ASSET_FD_NAME, "openAssetFd");
    assert_eq!(
        ASSET_MANAGER_OPEN_ASSET_FD_SIG,
        "(Ljava/lang/String;I[J[J)I"
    );
}

#[test]
fn message_queue_native_name_sig_and_class_match_art_reported() {
    assert_eq!(MESSAGE_QUEUE_CLASS, "android/os/MessageQueue");
    assert_eq!(MESSAGE_QUEUE_NATIVE_INIT_NAME, "nativeInit");
    assert_eq!(MESSAGE_QUEUE_NATIVE_INIT_SIG, "()J");
    assert_eq!(MESSAGE_QUEUE_NATIVE_DESTROY_NAME, "nativeDestroy");
    assert_eq!(MESSAGE_QUEUE_NATIVE_DESTROY_SIG, "(J)V");
    assert_eq!(
        MESSAGE_QUEUE_NATIVE_IS_IDLING_NAME,
        "nativeIsIdling"
    );
    assert_eq!(MESSAGE_QUEUE_NATIVE_IS_IDLING_SIG, "(J)Z");
    assert_eq!(
        MESSAGE_QUEUE_NATIVE_POLL_ONCE_NAME,
        "nativePollOnce"
    );
    assert_eq!(MESSAGE_QUEUE_NATIVE_POLL_ONCE_SIG, "(JI)Z");
    assert_eq!(MESSAGE_QUEUE_NATIVE_WAKE_NAME, "nativeWake");
    assert_eq!(MESSAGE_QUEUE_NATIVE_WAKE_SIG, "(J)V");

    assert_eq!(LOOPER_CLASS, "android/os/Looper");
}

#[test]
fn sensor_manager_native_name_sig_and_class_match_art_reported() {
    assert_eq!(
        SENSOR_MANAGER_CLASS,
        "android/hardware/SensorManager"
    );
    assert_eq!(
        SENSOR_MANAGER_REGISTER_NAME,
        "register_accelerometer_listener_native"
    );
    assert_eq!(
        SENSOR_MANAGER_REGISTER_SIG,
        "(Landroid/hardware/SensorEventListener;Landroid/hardware/Sensor;I)V"
    );
}

#[test]
fn vibrator_native_names_sigs_and_class_match_vibrator_java() {
    assert_eq!(VIBRATOR_CLASS, "android/os/Vibrator");
    assert_eq!(
        VIBRATOR_NATIVE_CONSTRUCTOR_NAME,
        "native_constructor"
    );
    assert_eq!(VIBRATOR_NATIVE_CONSTRUCTOR_SIG, "()I");
    assert_eq!(VIBRATOR_NATIVE_VIBRATE_NAME, "native_vibrate");
    assert_eq!(VIBRATOR_NATIVE_VIBRATE_SIG, "(IJ)V");
}

#[test]
fn activity_native_names_sigs_and_class_match_api_impl_dex() {
    assert_eq!(ACTIVITY_CLASS, "android/app/Activity");
    assert_eq!(
        ACTIVITY_NATIVE_START_ACTIVITY_NAME,
        "nativeStartActivity"
    );
    assert_eq!(
        ACTIVITY_NATIVE_START_ACTIVITY_SIG,
        "(Landroid/app/Activity;)V"
    );
    assert_eq!(ACTIVITY_NATIVE_FINISH_NAME, "nativeFinish");
    assert_eq!(ACTIVITY_NATIVE_FINISH_SIG, "(J)V");
    assert_eq!(
        ACTIVITY_NATIVE_RESUME_ACTIVITY_NAME,
        "nativeResumeActivity"
    );
    assert_eq!(
        ACTIVITY_NATIVE_RESUME_ACTIVITY_SIG,
        "(Ljava/lang/Class;Landroid/content/Intent;)Z"
    );
    assert_eq!(
        ACTIVITY_IS_IN_MULTI_WINDOW_MODE_NAME,
        "isInMultiWindowMode"
    );
    assert_eq!(ACTIVITY_IS_IN_MULTI_WINDOW_MODE_SIG, "()Z");
    assert_eq!(ACTIVITY_IS_TASK_ROOT_NAME, "isTaskRoot");
    assert_eq!(ACTIVITY_IS_TASK_ROOT_SIG, "()Z");
}

#[test]
fn process_native_name_sig_and_class_match_api_impl_dex() {
    assert_eq!(PROCESS_CLASS, "android/os/Process");
    assert_eq!(
        PROCESS_GET_ELAPSED_CPU_TIME_NAME,
        "getElapsedCpuTime"
    );
    assert_eq!(PROCESS_GET_ELAPSED_CPU_TIME_SIG, "()J");
}

#[test]
fn view_native_names_sigs_and_class_match_view_java() {
    assert_eq!(VIEW_CLASS, "android/view/View");
    assert_eq!(VIEW_NATIVE_CONSTRUCTOR_NAME, "native_constructor");
    assert_eq!(
        VIEW_NATIVE_CONSTRUCTOR_SIG,
        "(Landroid/content/Context;Landroid/util/AttributeSet;)J"
    );

    assert_eq!(VIEW_NATIVE_SET_PADDING_NAME, "native_setPadding");
    assert_eq!(VIEW_NATIVE_SET_PADDING_SIG, "(JIIII)V");

    assert_eq!(
        VIEW_NATIVE_SET_LAYOUT_PARAMS_NAME,
        "native_setLayoutParams"
    );
    assert_eq!(VIEW_NATIVE_SET_LAYOUT_PARAMS_SIG, "(JIIIFIIII)V");

    assert_eq!(
        VIEW_NATIVE_REQUEST_LAYOUT_NAME,
        "native_requestLayout"
    );
    assert_eq!(VIEW_NATIVE_REQUEST_LAYOUT_SIG, "(J)V");

    assert_eq!(
        VIEW_NATIVE_SET_BACKGROUND_DRAWABLE_NAME,
        "native_setBackgroundDrawable"
    );
    assert_eq!(VIEW_NATIVE_SET_BACKGROUND_DRAWABLE_SIG, "(JJ)V");

    assert_eq!(
        VIEW_NATIVE_SET_VISIBILITY_NAME,
        "native_setVisibility"
    );
    assert_eq!(VIEW_NATIVE_SET_VISIBILITY_SIG, "(JIF)V");

    assert_eq!(
        VIEW_SET_ON_CLICK_LISTENER_NAME,
        "nativeSetOnClickListener"
    );
    assert_eq!(VIEW_SET_ON_CLICK_LISTENER_SIG, "(J)V");

    assert_eq!(
        VIEW_SET_ON_TOUCH_LISTENER_NAME,
        "nativeSetOnTouchListener"
    );
    assert_eq!(VIEW_SET_ON_TOUCH_LISTENER_SIG, "(J)V");

    assert_eq!(
        VIEW_SET_ON_LONG_CLICK_LISTENER_NAME,
        "nativeSetOnLongClickListener"
    );
    assert_eq!(VIEW_SET_ON_LONG_CLICK_LISTENER_SIG, "(J)V");

    assert_eq!(
        VIEW_SET_BACKGROUND_COLOR_NAME,
        "native_setBackgroundColor"
    );
    assert_eq!(VIEW_SET_BACKGROUND_COLOR_SIG, "(JI)V");

    assert_eq!(
        VIEW_GET_WINDOW_VISIBLE_DISPLAY_FRAME_NAME,
        "getWindowVisibleDisplayFrame"
    );
    assert_eq!(
        VIEW_GET_WINDOW_VISIBLE_DISPLAY_FRAME_SIG,
        "(Landroid/graphics/Rect;)V"
    );
    assert_eq!(
        VIEW_NATIVE_IS_ATTACHED_TO_WINDOW_NAME,
        "nativeIsAttachedToWindow"
    );
    assert_eq!(VIEW_NATIVE_IS_ATTACHED_TO_WINDOW_SIG, "(J)Z");

    assert_eq!(
        VIEW_NATIVE_SET_FULLSCREEN_NAME,
        "nativeSetFullscreen"
    );
    assert_eq!(VIEW_NATIVE_SET_FULLSCREEN_SIG, "(JZ)V");

    assert_eq!(VIEW_NATIVE_GET_WINDOW_NAME, "native_get_window");
    assert_eq!(
        VIEW_NATIVE_GET_WINDOW_SIG,
        "(J)Landroid/view/Window;"
    );

    assert_eq!(VIEW_NATIVE_DESTRUCTOR_NAME, "native_destructor");
    assert_eq!(VIEW_NATIVE_DESTRUCTOR_SIG, "(J)V");

    assert_eq!(VIEW_NATIVE_LAYOUT_NAME, "native_layout");
    assert_eq!(VIEW_NATIVE_LAYOUT_SIG, "(JIIII)V");

    assert_eq!(VIEW_NATIVE_IS_FOCUSED_NAME, "nativeIsFocused");
    assert_eq!(VIEW_NATIVE_IS_FOCUSED_SIG, "(J)Z");

    assert_eq!(VIEW_NATIVE_INVALIDATE_NAME, "nativeInvalidate");
    assert_eq!(VIEW_NATIVE_INVALIDATE_SIG, "(J)V");

    assert_eq!(
        VIEW_NATIVE_KEEP_SCREEN_ON_NAME,
        "native_keep_screen_on"
    );
    assert_eq!(VIEW_NATIVE_KEEP_SCREEN_ON_SIG, "(JZ)V");

    assert_eq!(VIEW_NATIVE_ADD_CLASS_NAME, "native_addClass");
    assert_eq!(VIEW_NATIVE_ADD_CLASS_SIG, "(JLjava/lang/String;)V");
    assert_eq!(
        VIEW_NATIVE_REMOVE_CLASSES_NAME,
        "native_removeClasses"
    );
    assert_eq!(
        VIEW_NATIVE_REMOVE_CLASSES_SIG,
        "(J[Ljava/lang/String;)V"
    );

    assert_eq!(
        VIEW_NATIVE_DRAW_BACKGROUND_NAME,
        "native_drawBackground"
    );
    assert_eq!(VIEW_NATIVE_DRAW_BACKGROUND_SIG, "(JJ)V");
    assert_eq!(VIEW_NATIVE_DRAW_CONTENT_NAME, "native_drawContent");
    assert_eq!(VIEW_NATIVE_DRAW_CONTENT_SIG, "(JJ)V");

    assert_eq!(
        VIEW_NATIVE_QUEUE_ALLOCATE_NAME,
        "native_queueAllocate"
    );
    assert_eq!(VIEW_NATIVE_QUEUE_ALLOCATE_SIG, "(J)V");

    assert_eq!(VIEW_NATIVE_MEASURE_NAME, "native_measure");
    assert_eq!(VIEW_NATIVE_MEASURE_SIG, "(JII)V");

    assert_eq!(
        VIEW_SET_MEASURED_DIMENSION_NAME,
        "setMeasuredDimension"
    );
    assert_eq!(VIEW_SET_MEASURED_DIMENSION_SIG, "(II)V");
    assert_eq!(
        VIEW_GET_SUGGESTED_MIN_WIDTH_NAME,
        "getSuggestedMinimumWidth"
    );
    assert_eq!(
        VIEW_GET_SUGGESTED_MIN_HEIGHT_NAME,
        "getSuggestedMinimumHeight"
    );
    assert_eq!(VIEW_GET_SUGGESTED_MIN_SIG, "()I");

    assert_eq!(VIEW_WIDGET_FIELD_NAME, "widget");
    assert_eq!(VIEW_WIDGET_FIELD_SIG, "J");

    assert_eq!(ARRAY_LIST_SIG, "Ljava/util/ArrayList;");
    assert_eq!(RBX_SURFACE_VIEW_CLASS, "com.roblox.client.RBXSurfaceView");
    assert_eq!(WINDOW_FORMAT_RGBA_8888, 1);

    assert_eq!(TEXT_VIEW_CLASS, "android/widget/TextView");

    assert_eq!(TEXT_VIEW_NATIVE_SET_TEXT_NAME, "native_setText");
    assert_eq!(
        TEXT_VIEW_NATIVE_SET_TEXT_SIG,
        "(Ljava/lang/String;)V"
    );

    assert_eq!(
        TEXT_VIEW_NATIVE_SET_TEXT_COLOR_NAME,
        "native_setTextColor"
    );
    assert_eq!(TEXT_VIEW_NATIVE_SET_TEXT_COLOR_SIG, "(I)V");

    assert_eq!(TEXT_VIEW_SET_TEXT_SIZE_NAME, "setTextSize");
    assert_eq!(TEXT_VIEW_SET_TEXT_SIZE_SIG, "(F)V");

    assert_eq!(
        TEXT_VIEW_NATIVE_SET_MARKUP_NAME,
        "native_set_markup"
    );
    assert_eq!(TEXT_VIEW_NATIVE_SET_MARKUP_SIG, "(I)V");

    assert_eq!(
        TEXT_VIEW_NATIVE_SET_COMPOUND_DRAWABLES_NAME,
        "native_setCompoundDrawables"
    );
    assert_eq!(
        TEXT_VIEW_NATIVE_SET_COMPOUND_DRAWABLES_SIG,
        "(JJJJJ)V"
    );
}

#[test]
fn view_tree_observer_native_name_sig_and_class_match_view_tree_observer_java() {
    assert_eq!(
        VIEW_TREE_OBSERVER_CLASS,
        "android/view/ViewTreeObserver"
    );
    assert_eq!(
        VIEW_TREE_OBSERVER_SET_HAVE_LISTENERS_NAME,
        "native_set_have_global_layout_listeners"
    );
    assert_eq!(VIEW_TREE_OBSERVER_SET_HAVE_LISTENERS_SIG, "(Z)V");
}

#[test]
fn window_native_names_sigs_and_class_match_window_java() {
    assert_eq!(WINDOW_CLASS, "android/view/Window");
    assert_eq!(WINDOW_SET_JOBJECT_NAME, "set_jobject");
    assert_eq!(WINDOW_SET_JOBJECT_SIG, "(JLandroid/view/Window;)V");
    assert_eq!(WINDOW_SET_TITLE_NAME, "set_title");
    assert_eq!(WINDOW_SET_TITLE_SIG, "(JLjava/lang/String;)V");
    assert_eq!(WINDOW_SET_LAYOUT_NAME, "set_layout");
    assert_eq!(WINDOW_SET_LAYOUT_SIG, "(JII)V");
    assert_eq!(
        WINDOW_SET_WIDGET_AS_ROOT_NAME,
        "set_widget_as_root"
    );
    assert_eq!(WINDOW_SET_WIDGET_AS_ROOT_SIG, "(JJ)V");
    assert_eq!(
        WINDOW_REMOVE_GTK_BACKGROUND_NAME,
        "remove_gtk_background"
    );
    assert_eq!(WINDOW_REMOVE_GTK_BACKGROUND_SIG, "(J)V");
}

#[test]
fn paint_native_name_sig_and_class_match_art_reported() {
    assert_eq!(PAINT_CLASS, "android/graphics/Paint");
    assert_eq!(PAINT_NATIVE_CREATE_NAME, "native_create");
    assert_eq!(PAINT_NATIVE_CREATE_SIG, "()J");

    assert_eq!(PAINT_NATIVE_SET_COLOR_NAME, "native_set_color");
    assert_eq!(PAINT_NATIVE_SET_COLOR_SIG, "(JI)V");

    assert_eq!(
        PAINT_NATIVE_SET_STROKE_WIDTH_NAME,
        "native_set_stroke_width"
    );
    assert_eq!(PAINT_NATIVE_SET_STROKE_WIDTH_SIG, "(JF)V");

    assert_eq!(PAINT_NATIVE_SET_STYLE_NAME, "native_set_style");
    assert_eq!(PAINT_NATIVE_SET_STYLE_SIG, "(JI)V");

    assert_eq!(
        PAINT_NATIVE_SET_TEXT_SIZE_NAME,
        "native_set_text_size"
    );
    assert_eq!(PAINT_NATIVE_SET_TEXT_SIZE_SIG, "(JF)V");

    assert_eq!(PAINT_NATIVE_CLONE_NAME, "native_clone");
    assert_eq!(PAINT_NATIVE_CLONE_SIG, "(J)J");
    assert_eq!(PAINT_NATIVE_RECYCLE_NAME, "native_recycle");
    assert_eq!(PAINT_NATIVE_RECYCLE_SIG, "(J)V");
    assert_eq!(PAINT_NATIVE_GET_COLOR_NAME, "native_get_color");
    assert_eq!(PAINT_NATIVE_GET_COLOR_SIG, "(J)I");
    assert_eq!(PAINT_NATIVE_SET_ALPHA_NAME, "native_set_alpha");
    assert_eq!(PAINT_NATIVE_SET_ALPHA_SIG, "(JI)V");
    assert_eq!(PAINT_NATIVE_GET_ALPHA_NAME, "native_get_alpha");
    assert_eq!(PAINT_NATIVE_GET_ALPHA_SIG, "(J)I");
    assert_eq!(PAINT_NATIVE_GET_STYLE_NAME, "native_get_style");
    assert_eq!(PAINT_NATIVE_GET_STYLE_SIG, "(J)I");
    assert_eq!(
        PAINT_NATIVE_GET_STROKE_WIDTH_NAME,
        "native_get_stroke_width"
    );
    assert_eq!(PAINT_NATIVE_GET_STROKE_WIDTH_SIG, "(J)F");
    assert_eq!(
        PAINT_NATIVE_SET_STROKE_CAP_NAME,
        "native_set_stroke_cap"
    );
    assert_eq!(PAINT_NATIVE_SET_STROKE_CAP_SIG, "(JI)V");
    assert_eq!(
        PAINT_NATIVE_GET_STROKE_CAP_NAME,
        "native_get_stroke_cap"
    );
    assert_eq!(PAINT_NATIVE_GET_STROKE_CAP_SIG, "(J)I");
    assert_eq!(
        PAINT_NATIVE_SET_STROKE_JOIN_NAME,
        "native_set_stroke_join"
    );
    assert_eq!(PAINT_NATIVE_SET_STROKE_JOIN_SIG, "(JI)V");
    assert_eq!(
        PAINT_NATIVE_GET_STROKE_JOIN_NAME,
        "native_get_stroke_join"
    );
    assert_eq!(PAINT_NATIVE_GET_STROKE_JOIN_SIG, "(J)I");
    assert_eq!(
        PAINT_NATIVE_GET_TEXT_SIZE_NAME,
        "native_get_text_size"
    );
    assert_eq!(PAINT_NATIVE_GET_TEXT_SIZE_SIG, "(J)F");
    assert_eq!(
        PAINT_NATIVE_SET_COLOR_FILTER_NAME,
        "native_set_color_filter"
    );
    assert_eq!(PAINT_NATIVE_SET_COLOR_FILTER_SIG, "(JII)V");
    assert_eq!(
        PAINT_NATIVE_SET_TEXT_ALIGN_NAME,
        "native_set_text_align"
    );
    assert_eq!(PAINT_NATIVE_SET_TEXT_ALIGN_SIG, "(JI)V");
}

#[test]
fn matrix_native_name_sig_and_class_match_art_reported() {
    assert_eq!(MATRIX_CLASS, "android/graphics/Matrix");
    assert_eq!(MATRIX_NATIVE_CREATE_NAME, "native_create");
    assert_eq!(MATRIX_NATIVE_CREATE_SIG, "(J)J");

    assert_eq!(MATRIX_FINALIZER_NAME, "finalizer");
    assert_eq!(MATRIX_FINALIZER_SIG, "(J)V");
}

#[test]
fn path_native_names_sigs_and_class_match_art_reported() {
    assert_eq!(PATH_CLASS, "android/graphics/Path");
    assert_eq!(
        PATH_NATIVE_CREATE_BUILDER_NAME,
        "native_create_builder"
    );
    assert_eq!(PATH_NATIVE_CREATE_BUILDER_SIG, "(JJ)J");
    assert_eq!(PATH_NATIVE_MOVE_TO_NAME, "native_move_to");
    assert_eq!(PATH_NATIVE_MOVE_TO_SIG, "(JFF)V");
    assert_eq!(PATH_NATIVE_LINE_TO_NAME, "native_line_to");
    assert_eq!(PATH_NATIVE_LINE_TO_SIG, "(JFF)V");
    assert_eq!(PATH_NATIVE_QUAD_TO_NAME, "native_quad_to");
    assert_eq!(PATH_NATIVE_QUAD_TO_SIG, "(JFFFF)V");
    assert_eq!(PATH_NATIVE_CUBIC_TO_NAME, "native_cubic_to");
    assert_eq!(PATH_NATIVE_CUBIC_TO_SIG, "(JFFFFFF)V");
    assert_eq!(PATH_NATIVE_CLOSE_NAME, "native_close");
    assert_eq!(PATH_NATIVE_CLOSE_SIG, "(J)V");
    assert_eq!(PATH_NATIVE_CREATE_PATH_NAME, "native_create_path");
    assert_eq!(PATH_NATIVE_CREATE_PATH_SIG, "(J)J");
    assert_eq!(PATH_NATIVE_REF_PATH_NAME, "native_ref_path");
    assert_eq!(PATH_NATIVE_REF_PATH_SIG, "(J)J");

    assert_eq!(PATH_NATIVE_RESET_NAME, "native_reset");
    assert_eq!(PATH_NATIVE_RESET_SIG, "(JJ)V");
}

#[test]
fn canvas_native_names_and_sigs() {
    assert_eq!(CANVAS_CLASS, "android/graphics/Canvas");
    assert_eq!(CANVAS_N_DRAW_COLOR_NAME, "nDrawColor");
    assert_eq!(CANVAS_N_DRAW_COLOR_SIG, "(JI)V");
    assert_eq!(CANVAS_N_DRAW_RECT_NAME, "nDrawRect");
    assert_eq!(CANVAS_N_DRAW_RECT_SIG, "(JFFFFJ)V");
    assert_eq!(CANVAS_N_DRAW_CIRCLE_NAME, "nDrawCircle");
    assert_eq!(CANVAS_N_DRAW_CIRCLE_SIG, "(JFFFJ)V");
    assert_eq!(CANVAS_N_DRAW_PATH_NAME, "nDrawPath");
    assert_eq!(CANVAS_N_DRAW_PATH_SIG, "(JJJ)V");
}

#[test]
fn image_view_class_is_slashed_internal_name() {
    assert_eq!(IMAGE_VIEW_CLASS, "android/widget/ImageView");

    assert_eq!(
        IMAGE_VIEW_SET_SCALE_TYPE_NAME,
        "native_setScaleType"
    );
    assert_eq!(IMAGE_VIEW_SET_SCALE_TYPE_SIG, "(JI)V");

    assert_eq!(IMAGE_VIEW_SET_DRAWABLE_NAME, "native_setDrawable");
    assert_eq!(IMAGE_VIEW_SET_DRAWABLE_SIG, "(JJ)V");
}

#[test]
fn image_button_class_is_slashed_internal_name() {
    assert_eq!(IMAGE_BUTTON_CLASS, "android/widget/ImageButton");

    assert_eq!(
        IMAGE_BUTTON_SET_ON_CLICK_LISTENER_NAME,
        "nativeSetOnClickListener"
    );
    assert_eq!(IMAGE_BUTTON_SET_ON_CLICK_LISTENER_SIG, "(J)V");

    assert_eq!(IMAGE_VIEW_SET_DRAWABLE_NAME, "native_setDrawable");
    assert_eq!(IMAGE_VIEW_SET_DRAWABLE_SIG, "(JJ)V");
}

#[test]
fn surface_view_class_is_slashed_internal_name() {
    assert_eq!(SURFACE_VIEW_CLASS, "android/view/SurfaceView");
}

#[test]
fn activity_manager_memory_native_names_sigs_and_class_match_the_overlay() {
    assert_eq!(
        ACTIVITY_MANAGER_CLASS,
        "android/app/ActivityManager"
    );
    assert_eq!(
        AM_NATIVE_FILL_MEMORY_INFO_NAME,
        "native_fillMemoryInfo"
    );
    assert_eq!(
        AM_NATIVE_FILL_MEMORY_INFO_SIG,
        "(Landroid/app/ActivityManager$MemoryInfo;)V"
    );
    assert_eq!(
        AM_NATIVE_GET_MEMORY_CLASS_NAME,
        "native_getMemoryClass"
    );
    assert_eq!(AM_NATIVE_GET_MEMORY_CLASS_SIG, "()I");
    assert_eq!(
        AM_NATIVE_GET_LARGE_MEMORY_CLASS_NAME,
        "native_getLargeMemoryClass"
    );
    assert_eq!(AM_NATIVE_GET_LARGE_MEMORY_CLASS_SIG, "()I");
    assert_eq!(
        AM_NATIVE_IS_LOW_RAM_DEVICE_NAME,
        "native_isLowRamDevice"
    );
    assert_eq!(AM_NATIVE_IS_LOW_RAM_DEVICE_SIG, "()Z");
    assert_eq!(memory_bytes_to_jlong(u64::MAX), i64::MAX);
}

#[test]
fn web_view_native_names_sigs_and_class_match_the_installed_dex() {
    assert_eq!(WEB_VIEW_CLASS, "android/webkit/WebView");

    assert_eq!(VIEW_NATIVE_CONSTRUCTOR_NAME, "native_constructor");
    assert_eq!(
        VIEW_NATIVE_CONSTRUCTOR_SIG,
        "(Landroid/content/Context;Landroid/util/AttributeSet;)J"
    );

    assert_eq!(WEB_VIEW_NATIVE_LOAD_URL_NAME, "native_loadUrl");
    assert_eq!(
        WEB_VIEW_NATIVE_LOAD_URL_SIG,
        "(JLjava/lang/String;)V"
    );
    assert_eq!(
        WEB_VIEW_NATIVE_LOAD_DATA_WITH_BASE_URL_NAME,
        "native_loadDataWithBaseURL"
    );
    assert_eq!(
        WEB_VIEW_NATIVE_LOAD_DATA_WITH_BASE_URL_SIG,
        "(JLjava/lang/String;Ljava/lang/String;Ljava/lang/String;Ljava/lang/String;)V"
    );

    assert_eq!(
        WEB_VIEW_NATIVE_EVALUATE_JAVASCRIPT_NAME,
        "native_evaluateJavascript"
    );
    assert_eq!(
        WEB_VIEW_NATIVE_EVALUATE_JAVASCRIPT_SIG,
        "(JLjava/lang/String;Landroid/webkit/ValueCallback;)V"
    );
    assert_eq!(
        WEB_VIEW_NATIVE_ADD_JAVASCRIPT_INTERFACE_NAME,
        "native_addJavascriptInterface"
    );
    assert_eq!(
        WEB_VIEW_NATIVE_ADD_JAVASCRIPT_INTERFACE_SIG,
        "(JLjava/lang/Object;Ljava/lang/String;)V"
    );
    assert_eq!(
        WEB_VIEW_NATIVE_CAN_GO_BACK_NAME,
        "native_canGoBack"
    );
    assert_eq!(WEB_VIEW_NATIVE_CAN_GO_BACK_SIG, "(J)Z");
    assert_eq!(WEB_VIEW_NATIVE_GO_BACK_NAME, "native_goBack");
    assert_eq!(WEB_VIEW_NATIVE_GO_BACK_SIG, "(J)V");

    assert_eq!(WEB_SETTINGS_CLASS, "android/webkit/WebSettings");
    assert_eq!(
        WEB_SETTINGS_NATIVE_SET_USER_AGENT_STRING_NAME,
        "native_setUserAgentString"
    );
    assert_eq!(
        WEB_SETTINGS_NATIVE_SET_USER_AGENT_STRING_SIG,
        "(Ljava/lang/String;)V"
    );
    assert_eq!(
        WEB_SETTINGS_NATIVE_GET_USER_AGENT_STRING_NAME,
        "native_getUserAgentString"
    );
    assert_eq!(
        WEB_SETTINGS_NATIVE_GET_USER_AGENT_STRING_SIG,
        "()Ljava/lang/String;"
    );

    assert_eq!(
        COOKIE_MANAGER_CLASS,
        "android/webkit/CookieManager"
    );
    assert_eq!(CM_NATIVE_GET_COOKIE_NAME, "native_getCookie");
    assert_eq!(
        CM_NATIVE_GET_COOKIE_SIG,
        "(Ljava/lang/String;)Ljava/lang/String;"
    );
    assert_eq!(CM_NATIVE_SET_COOKIE_NAME, "native_setCookie");
    assert_eq!(
        CM_NATIVE_SET_COOKIE_SIG,
        "(Ljava/lang/String;Ljava/lang/String;)V"
    );
    assert_eq!(
        CM_NATIVE_SET_COOKIE_CB_SIG,
        "(Ljava/lang/String;Ljava/lang/String;Landroid/webkit/ValueCallback;)V"
    );
    assert_eq!(
        CM_NATIVE_REMOVE_ALL_COOKIES_NAME,
        "native_removeAllCookies"
    );
    assert_eq!(
        CM_NATIVE_REMOVE_SESSION_COOKIES_NAME,
        "native_removeSessionCookies"
    );
    assert_eq!(CM_NATIVE_FLUSH_NAME, "native_flush");
    assert_eq!(CM_NATIVE_FLUSH_SIG, "()V");
    assert_eq!(
        JAVASCRIPT_INTERFACE_CLASS,
        "android/webkit/JavascriptInterface"
    );
}

#[test]
fn widget_property_setter_names_sigs_and_classes_match_overlay() {
    assert_eq!(BUTTON_CLASS, "android/widget/Button");
    assert_eq!(EDIT_TEXT_CLASS, "android/widget/EditText");
    assert_eq!(CHECK_BOX_CLASS, "android/widget/CheckBox");
    assert_eq!(RADIO_BUTTON_CLASS, "android/widget/RadioButton");
    assert_eq!(PROGRESS_BAR_CLASS, "android/widget/ProgressBar");
    assert_eq!(SEEK_BAR_CLASS, "android/widget/SeekBar");
    assert_eq!(SPINNER_CLASS, "android/widget/Spinner");
    assert_eq!(SCROLL_VIEW_CLASS, "android/widget/ScrollView");

    assert_eq!(WIDGET_NATIVE_SET_TEXT_NAME, "native_setText");
    assert_eq!(
        WIDGET_NATIVE_SET_TEXT_SIG,
        "(JLjava/lang/String;)V"
    );

    assert_eq!(RADIO_BUTTON_SET_TEXT_NAME, "setText");
    assert_eq!(
        RADIO_BUTTON_SET_TEXT_SIG,
        "(Ljava/lang/CharSequence;)V"
    );

    assert_eq!(
        PROGRESS_BAR_SET_INDETERMINATE_NAME,
        "native_setIndeterminate"
    );
    assert_eq!(PROGRESS_BAR_SET_INDETERMINATE_SIG, "(Z)V");

    assert_eq!(
        PROGRESS_NATIVE_SET_PROGRESS_NAME,
        "native_setProgress"
    );
    assert_eq!(PROGRESS_NATIVE_SET_PROGRESS_SIG, "(JF)V");

    assert_eq!(SEEK_BAR_SET_MAX_NAME, "native_setMax");
    assert_eq!(SEEK_BAR_SET_MAX_SIG, "(JI)V");

    assert_eq!(
        BUTTON_SET_COMPOUND_DRAWABLES_NAME,
        "native_setCompoundDrawables"
    );
    assert_eq!(BUTTON_SET_COMPOUND_DRAWABLES_SIG, "(JJ)V");

    assert_eq!(SPINNER_SET_ADAPTER_NAME, "native_setAdapter");
    assert_eq!(
        SPINNER_SET_ADAPTER_SIG,
        "(JLandroid/widget/SpinnerAdapter;)V"
    );

    assert_eq!(VIEW_GROUP_NATIVE_ADD_VIEW_NAME, "native_addView");
    assert_eq!(
        VIEW_GROUP_NATIVE_ADD_VIEW_SIG,
        "(JJILandroid/view/ViewGroup$LayoutParams;)V"
    );
    assert_eq!(
        VIEW_GROUP_NATIVE_REMOVE_VIEW_NAME,
        "native_removeView"
    );
    assert_eq!(VIEW_GROUP_NATIVE_REMOVE_VIEW_SIG, "(JJ)V");

    assert_eq!(
        EDIT_TEXT_ADD_TEXT_CHANGED_LISTENER_NAME,
        "native_addTextChangedListener"
    );
    assert_eq!(
        EDIT_TEXT_REMOVE_TEXT_CHANGED_LISTENER_NAME,
        "native_removeTextChangedListener"
    );
    assert_eq!(
        EDIT_TEXT_TEXT_CHANGED_LISTENER_SIG,
        "(JLandroid/text/TextWatcher;)V"
    );
    assert_eq!(
        EDIT_TEXT_SET_ON_EDITOR_ACTION_LISTENER_NAME,
        "native_setOnEditorActionListener"
    );
    assert_eq!(
        EDIT_TEXT_SET_ON_EDITOR_ACTION_LISTENER_SIG,
        "(JLandroid/widget/TextView$OnEditorActionListener;)V"
    );
}

#[test]
fn drawable_native_name_sig_and_class_match_art_reported() {
    assert_eq!(
        DRAWABLE_CLASS,
        "android/graphics/drawable/Drawable"
    );
    assert_eq!(
        DRAWABLE_NATIVE_CONSTRUCTOR_NAME,
        "native_constructor"
    );
    assert_eq!(DRAWABLE_NATIVE_CONSTRUCTOR_SIG, "()J");

    assert_eq!(DRAWABLE_NATIVE_UNREF_NAME, "native_unref");
    assert_eq!(DRAWABLE_NATIVE_UNREF_SIG, "(J)V");

    assert_eq!(
        DRAWABLE_NATIVE_INVALIDATE_NAME,
        "native_invalidate"
    );
    assert_eq!(DRAWABLE_NATIVE_INVALIDATE_SIG, "(J)V");

    assert_eq!(DRAWABLE_NATIVE_REF_NAME, "native_ref");
    assert_eq!(DRAWABLE_NATIVE_REF_SIG, "(J)V");
    assert_eq!(DRAWABLE_NATIVE_DRAW_NAME, "native_draw");
    assert_eq!(DRAWABLE_NATIVE_DRAW_SIG, "(JJII)V");
    assert_eq!(
        DRAWABLE_PAINTABLE_FROM_PATH_NAME,
        "native_paintable_from_path"
    );
    assert_eq!(
        DRAWABLE_PAINTABLE_FROM_PATH_SIG,
        "(Ljava/lang/String;)J"
    );

    assert_eq!(
        DRAWABLE_CONTAINER_CLASS,
        "android/graphics/drawable/DrawableContainer"
    );
    assert_eq!(
        DRAWABLE_CONTAINER_SELECT_CHILD_NAME,
        "native_selectChild"
    );
    assert_eq!(DRAWABLE_CONTAINER_SELECT_CHILD_SIG, "(JJ)V");

    assert_eq!(
        NINE_PATCH_DRAWABLE_CLASS,
        "android/graphics/drawable/NinePatchDrawable"
    );
    assert_eq!(NINE_PATCH_CREATE_NAME, "nativeCreate");
    assert_eq!(
        NINE_PATCH_CREATE_FROM_PATH_SIG,
        "(Ljava/lang/String;)J"
    );
    assert_eq!(NINE_PATCH_CREATE_FROM_CHUNK_SIG, "([BJ)J");
    assert_eq!(NINE_PATCH_SET_TINT_NAME, "nativeSetTint");
    assert_eq!(NINE_PATCH_SET_TINT_SIG, "(JI)V");

    assert_ne!(DRAWABLE_HANDLE_SENTINEL, 0);

    assert_ne!(DRAWABLE_CONTAINER_HANDLE_SENTINEL, 0);
    assert_ne!(DRAWABLE_CONTAINER_HANDLE_SENTINEL, DRAWABLE_HANDLE_SENTINEL);
}

#[test]
fn imm_native_name_sig_and_class_match_api_impl_dex() {
    assert_eq!(
        INPUT_METHOD_MANAGER_CLASS,
        "android/view/inputmethod/InputMethodManager"
    );
    assert_eq!(IMM_NATIVE_INIT_NAME, "nativeInit");
    assert_eq!(IMM_NATIVE_INIT_SIG, "()J");
    assert_eq!(
        IMM_NATIVE_HIDE_SOFT_INPUT_NAME,
        "nativeHideSoftInput"
    );
    assert_eq!(IMM_NATIVE_HIDE_SOFT_INPUT_SIG, "(J)V");
    assert_eq!(
        IMM_NATIVE_SHOW_SOFT_INPUT_NAME,
        "nativeShowSoftInput"
    );
    assert_eq!(
        IMM_NATIVE_SHOW_SOFT_INPUT_SIG,
        "(JJLandroid/view/inputmethod/InputConnection;I)Z"
    );
}

#[test]
fn view_group_native_name_sig_and_class_match_view_group_java() {
    assert_eq!(VIEW_GROUP_CLASS, "android/view/ViewGroup");
    assert_eq!(VIEW_GROUP_NATIVE_ADD_VIEW_NAME, "native_addView");
    assert_eq!(
        VIEW_GROUP_NATIVE_ADD_VIEW_SIG,
        "(JJILandroid/view/ViewGroup$LayoutParams;)V"
    );

    assert_eq!(
        VIEW_GROUP_NATIVE_REMOVE_VIEW_NAME,
        "native_removeView"
    );
    assert_eq!(VIEW_GROUP_NATIVE_REMOVE_VIEW_SIG, "(JJ)V");
}

#[test]
fn motion_event_dispatch_descriptors_are_the_public_android_api() {
    assert_eq!(MOTION_EVENT_CLASS, "android/view/MotionEvent");

    assert_eq!(MOTION_EVENT_OBTAIN_NAME, "obtain");
    assert_eq!(
        MOTION_EVENT_OBTAIN_SIG,
        "(JJIFFI)Landroid/view/MotionEvent;"
    );

    assert_eq!(
        VIEW_DISPATCH_TOUCH_EVENT_NAME,
        "dispatchTouchEvent"
    );
    assert_eq!(
        VIEW_DISPATCH_TOUCH_EVENT_SIG,
        "(Landroid/view/MotionEvent;)Z"
    );

    assert_eq!(MOTION_EVENT_RECYCLE_NAME, "recycle");
    assert_eq!(MOTION_EVENT_RECYCLE_SIG, "()V");

    assert_eq!(
        UPTIME_MILLIS_NAME,
        "uptimeMillis"
    );
    assert_eq!(UPTIME_MILLIS_SIG, "()J");
}

#[test]
fn key_event_dispatch_descriptors_are_the_public_android_api() {
    assert_eq!(KEY_EVENT_CLASS, "android/view/KeyEvent");

    assert_eq!(KEY_EVENT_CONSTRUCTOR_SIG, "(JJIIII)V");

    assert_eq!(VIEW_DISPATCH_KEY_EVENT_NAME, "dispatchKeyEvent");
    assert_eq!(
        VIEW_DISPATCH_KEY_EVENT_SIG,
        "(Landroid/view/KeyEvent;)Z"
    );

    assert_eq!(KEY_EVENT_UNICODE_VALUE_FIELD, "unicodeValue");
    assert_eq!(INT_SIG, "I");
}

#[test]
fn fields_and_classes_are_those_of_android() {
    assert_eq!(ACTIVITY_FINISHING_FIELD_NAME, "finishing");
    assert_eq!(CONTENT_PROVIDER_CLASS, "android/content/ContentProvider");
    assert_eq!(ECLIPSE_BRIDGE_PROBE_CLASS, "android/webkit/EclipseBridgeProbe");
    assert_eq!(WEB_VIEW_INTERNAL_LOAD_CHANGED_NAME, "internalLoadChanged");
    assert_eq!(MEMORY_INFO_AVAIL_MEM_FIELD, "availMem");
    assert_eq!(MEMORY_INFO_TOTAL_MEM_FIELD, "totalMem");
    assert_eq!(MEMORY_INFO_THRESHOLD_FIELD, "threshold");
    assert_eq!(MEMORY_INFO_LOW_MEMORY_FIELD, "lowMemory");
    assert_eq!(MEMORY_INFO_HIDDEN_THRESHOLD_FIELD, "hiddenAppThreshold");
    assert_eq!(MEMORY_INFO_SECONDARY_THRESHOLD_FIELD, "secondaryServerThreshold");
    assert_eq!(MEMORY_INFO_VISIBLE_THRESHOLD_FIELD, "visibleAppThreshold");
    assert_eq!(MEMORY_INFO_FOREGROUND_THRESHOLD_FIELD, "foregroundAppThreshold");
}
