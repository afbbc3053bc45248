//! The names by which Java knows the classes, methods and fields that the host
//! deals with. Classes are written with slashes, and types as descriptors.

use vstd::prelude::*;

verus! {

pub const NATIVE_GET_APK_PATH_NAME: &'static str = "native_get_apk_path";

pub const NATIVE_GET_APK_PATH_SIG: &'static str = "()Ljava/lang/String;";

pub const NATIVE_UPDATE_CONFIG_NAME: &'static str = "native_updateConfig";

pub const NATIVE_UPDATE_CONFIG_SIG: &'static str = "(Landroid/content/res/Configuration;)V";

pub const SCREEN_WIDTH_DP_FIELD: &'static str = "screenWidthDp";

pub const SCREEN_HEIGHT_DP_FIELD: &'static str = "screenHeightDp";

pub const INT_SIG: &'static str = "I";

pub const CHAR_SEQUENCE_SIG: &'static str = "Ljava/lang/CharSequence;";

pub const LOG_CLASS: &'static str = "android/util/Log";

pub const PRINTLN_NATIVE_NAME: &'static str = "println_native";

pub const PRINTLN_NATIVE_SIG: &'static str = "(IILjava/lang/String;Ljava/lang/String;)I";

pub const CONNECTIVITY_MANAGER_CLASS: &'static str = "android/net/ConnectivityManager";

pub const CM_REGISTER_NETWORK_CALLBACK_NAME: &'static str = "registerNetworkCallback";

pub const CM_REGISTER_NETWORK_CALLBACK_SIG: &'static str =
    "(Landroid/net/NetworkRequest;Landroid/net/ConnectivityManager$NetworkCallback;)V";

pub const CM_IS_ACTIVE_NETWORK_METERED_NAME: &'static str = "isActiveNetworkMetered";

pub const CM_IS_ACTIVE_NETWORK_METERED_SIG: &'static str = "()Z";

pub const CM_NATIVE_GET_NETWORK_AVAILABLE_NAME: &'static str = "nativeGetNetworkAvailable";

pub const CM_NATIVE_GET_NETWORK_AVAILABLE_SIG: &'static str = "()Z";

pub const ASSET_MANAGER_CLASS: &'static str = "android/content/res/AssetManager";

pub const ASSET_MANAGER_INIT_NAME: &'static str = "init";

pub const ASSET_MANAGER_INIT_SIG: &'static str = "(I)V";

pub const ASSET_MANAGER_SET_APK_ASSETS_NAME: &'static str = "native_setApkAssets";

pub const ASSET_MANAGER_SET_APK_ASSETS_SIG: &'static str = "([Ljava/lang/Object;I)V";

pub const ASSET_MANAGER_SET_CONFIGURATION_NAME: &'static str = "setConfiguration";

pub const ASSET_MANAGER_SET_CONFIGURATION_SIG: &'static str =
    "(IILjava/lang/String;IIIIIIIIIIIIII)V";

pub const ASSET_MANAGER_OPEN_XML_ASSET_NAME: &'static str = "openXmlAssetNative";

pub const ASSET_MANAGER_OPEN_XML_ASSET_SIG: &'static str = "(ILjava/lang/String;)J";

pub const ASSET_MANAGER_RETRIEVE_ATTRIBUTES_NAME: &'static str = "retrieveAttributes";

pub const ASSET_MANAGER_RETRIEVE_ATTRIBUTES_SIG: &'static str = "(J[IIJJ)Z";

pub const ASSET_MANAGER_NEW_THEME_NAME: &'static str = "newTheme";

pub const ASSET_MANAGER_NEW_THEME_SIG: &'static str = "()J";

pub const ASSET_MANAGER_APPLY_THEME_STYLE_NAME: &'static str = "applyThemeStyle";

pub const ASSET_MANAGER_APPLY_THEME_STYLE_SIG: &'static str = "(JIZ)V";

pub const ASSET_MANAGER_COPY_THEME_NAME: &'static str = "copyTheme";

pub const ASSET_MANAGER_COPY_THEME_SIG: &'static str = "(JJ)V";

pub const ASSET_MANAGER_APPLY_STYLE_NAME: &'static str = "applyStyle";

pub const ASSET_MANAGER_APPLY_STYLE_SIG: &'static str = "(JJII[IIJJ)V";

pub const ASSET_MANAGER_GET_RESOURCE_NAME_NAME: &'static str = "getResourceName";

pub const ASSET_MANAGER_GET_RESOURCE_NAME_SIG: &'static str = "(I)Ljava/lang/String;";

pub const ASSET_MANAGER_GET_RESOURCE_PACKAGE_NAME_NAME: &'static str = "getResourcePackageName";

pub const ASSET_MANAGER_GET_RESOURCE_PACKAGE_NAME_SIG: &'static str = "(I)Ljava/lang/String;";

pub const ASSET_MANAGER_GET_RESOURCE_IDENTIFIER_NAME: &'static str = "getResourceIdentifier";

pub const ASSET_MANAGER_GET_RESOURCE_IDENTIFIER_SIG: &'static str =
    "(Ljava/lang/String;Ljava/lang/String;Ljava/lang/String;)I";

pub const ASSET_MANAGER_OPEN_ASSET_NAME: &'static str = "openAsset";

pub const ASSET_MANAGER_OPEN_ASSET_SIG: &'static str = "(Ljava/lang/String;I)J";

pub const ASSET_MANAGER_READ_ASSET_NAME: &'static str = "readAsset";

pub const ASSET_MANAGER_READ_ASSET_SIG: &'static str = "(J[BJJ)I";

pub const ASSET_MANAGER_READ_ASSET_CHAR_NAME: &'static str = "readAssetChar";

pub const ASSET_MANAGER_READ_ASSET_CHAR_SIG: &'static str = "(J)I";

pub const ASSET_MANAGER_SEEK_ASSET_NAME: &'static str = "seekAsset";

pub const ASSET_MANAGER_SEEK_ASSET_SIG: &'static str = "(JJI)J";

pub const ASSET_MANAGER_GET_ASSET_LENGTH_NAME: &'static str = "getAssetLength";

pub const ASSET_MANAGER_GET_ASSET_LENGTH_SIG: &'static str = "(J)J";

pub const ASSET_MANAGER_GET_ASSET_REMAINING_LENGTH_NAME: &'static str = "getAssetRemainingLength";

pub const ASSET_MANAGER_GET_ASSET_REMAINING_LENGTH_SIG: &'static str = "(J)J";

pub const ASSET_MANAGER_DESTROY_ASSET_NAME: &'static str = "destroyAsset";

pub const ASSET_MANAGER_DESTROY_ASSET_SIG: &'static str = "(J)V";

pub const ASSET_MANAGER_OPEN_ASSET_FD_NAME: &'static str = "openAssetFd";

pub const ASSET_MANAGER_OPEN_ASSET_FD_SIG: &'static str = "(Ljava/lang/String;I[J[J)I";

pub const ASSET_MANAGER_LOAD_RESOURCE_VALUE_NAME: &'static str = "loadResourceValue";

pub const ASSET_MANAGER_LOAD_RESOURCE_VALUE_SIG: &'static str = "(ISLandroid/util/TypedValue;Z)I";

pub const ASSET_MANAGER_LOAD_THEME_ATTRIBUTE_VALUE_NAME: &'static str = "loadThemeAttributeValue";

pub const ASSET_MANAGER_LOAD_THEME_ATTRIBUTE_VALUE_SIG: &'static str =
    "(JILandroid/util/TypedValue;Z)I";

pub const ASSET_MANAGER_GET_POOLED_STRING_NAME: &'static str = "getPooledString";

pub const ASSET_MANAGER_GET_POOLED_STRING_SIG: &'static str = "(II)Ljava/lang/CharSequence;";

pub const XML_BLOCK_CLASS: &'static str = "android/content/res/XmlBlock";

pub const XML_BLOCK_CREATE_PARSE_STATE_NAME: &'static str = "nativeCreateParseState";

pub const XML_BLOCK_CREATE_PARSE_STATE_SIG: &'static str = "(J)J";

pub const XML_BLOCK_NEXT_NAME: &'static str = "nativeNext";

pub const XML_BLOCK_NEXT_SIG: &'static str = "(J)I";

pub const XML_BLOCK_DESTROY_PARSE_STATE_NAME: &'static str = "nativeDestroyParseState";

pub const XML_BLOCK_DESTROY_PARSE_STATE_SIG: &'static str = "(J)V";

pub const XML_BLOCK_GET_NAME_NAME: &'static str = "nativeGetName";

pub const XML_BLOCK_GET_NAME_SIG: &'static str = "(J)Ljava/lang/String;";

pub const XML_BLOCK_DESTROY_NAME: &'static str = "nativeDestroy";

pub const XML_BLOCK_DESTROY_SIG: &'static str = "(J)V";

pub const XML_BLOCK_GET_ATTR_INDEX_NAME: &'static str = "nativeGetAttributeIndex";

pub const XML_BLOCK_GET_ATTR_INDEX_SIG: &'static str = "(JLjava/lang/String;Ljava/lang/String;)I";

pub const XML_BLOCK_GET_ATTR_STRING_VALUE_NAME: &'static str = "nativeGetAttributeStringValue";

pub const XML_BLOCK_GET_ATTR_STRING_VALUE_SIG: &'static str = "(JI)Ljava/lang/String;";

pub const XML_BLOCK_GET_ATTR_DATA_TYPE_NAME: &'static str = "nativeGetAttributeDataType";

pub const XML_BLOCK_GET_ATTR_DATA_TYPE_SIG: &'static str = "(JI)I";

pub const XML_BLOCK_GET_ATTR_COUNT_NAME: &'static str = "nativeGetAttributeCount";

pub const XML_BLOCK_GET_ATTR_COUNT_SIG: &'static str = "(J)I";

pub const XML_BLOCK_GET_ATTR_RESOURCE_NAME: &'static str = "nativeGetAttributeResource";

pub const XML_BLOCK_GET_ATTR_RESOURCE_SIG: &'static str = "(JI)I";

pub const XML_BLOCK_GET_ATTR_DATA_NAME: &'static str = "nativeGetAttributeData";

pub const XML_BLOCK_GET_ATTR_DATA_SIG: &'static str = "(JI)I";

pub const XML_BLOCK_GET_LINE_NUMBER_NAME: &'static str = "nativeGetLineNumber";

pub const XML_BLOCK_GET_LINE_NUMBER_SIG: &'static str = "(J)I";

pub const XML_BLOCK_GET_POOLED_STRING_NAME: &'static str = "nativeGetPooledString";

pub const XML_BLOCK_GET_POOLED_STRING_SIG: &'static str = "(JI)Ljava/lang/String;";

pub const ENVIRONMENT_CLASS: &'static str = "android/os/Environment";

pub const GET_APP_DATA_DIR_NAME: &'static str = "native_get_app_data_dir";

pub const GET_APP_DATA_DIR_SIG: &'static str = "()Ljava/lang/String;";

pub const SYSTEM_CLOCK_CLASS: &'static str = "android/os/SystemClock";

pub const ELAPSED_REALTIME_NAME: &'static str = "elapsedRealtime";

pub const ELAPSED_REALTIME_SIG: &'static str = "()J";

pub const ELAPSED_REALTIME_NANOS_NAME: &'static str = "elapsedRealtimeNanos";

pub const ELAPSED_REALTIME_NANOS_SIG: &'static str = "()J";

pub const UPTIME_MILLIS_NAME: &'static str = "uptimeMillis";

pub const UPTIME_MILLIS_SIG: &'static str = "()J";

pub const MESSAGE_QUEUE_CLASS: &'static str = "android/os/MessageQueue";

pub const MESSAGE_QUEUE_NATIVE_INIT_NAME: &'static str = "nativeInit";

pub const MESSAGE_QUEUE_NATIVE_INIT_SIG: &'static str = "()J";

pub const MESSAGE_QUEUE_NATIVE_DESTROY_NAME: &'static str = "nativeDestroy";

pub const MESSAGE_QUEUE_NATIVE_DESTROY_SIG: &'static str = "(J)V";

pub const MESSAGE_QUEUE_NATIVE_IS_IDLING_NAME: &'static str = "nativeIsIdling";

pub const MESSAGE_QUEUE_NATIVE_IS_IDLING_SIG: &'static str = "(J)Z";

pub const MESSAGE_QUEUE_NATIVE_POLL_ONCE_NAME: &'static str = "nativePollOnce";

pub const MESSAGE_QUEUE_NATIVE_POLL_ONCE_SIG: &'static str = "(JI)Z";

pub const MESSAGE_QUEUE_NATIVE_WAKE_NAME: &'static str = "nativeWake";

pub const MESSAGE_QUEUE_NATIVE_WAKE_SIG: &'static str = "(J)V";

pub const SENSOR_MANAGER_CLASS: &'static str = "android/hardware/SensorManager";

pub const SENSOR_MANAGER_REGISTER_NAME: &'static str = "register_accelerometer_listener_native";

pub const SENSOR_MANAGER_REGISTER_SIG: &'static str =
    "(Landroid/hardware/SensorEventListener;Landroid/hardware/Sensor;I)V";

pub const VIBRATOR_CLASS: &'static str = "android/os/Vibrator";

pub const VIBRATOR_NATIVE_CONSTRUCTOR_NAME: &'static str = "native_constructor";

pub const VIBRATOR_NATIVE_CONSTRUCTOR_SIG: &'static str = "()I";

pub const VIBRATOR_NATIVE_VIBRATE_NAME: &'static str = "native_vibrate";

pub const VIBRATOR_NATIVE_VIBRATE_SIG: &'static str = "(IJ)V";

pub const PROCESS_CLASS: &'static str = "android/os/Process";

pub const PROCESS_GET_ELAPSED_CPU_TIME_NAME: &'static str = "getElapsedCpuTime";

pub const PROCESS_GET_ELAPSED_CPU_TIME_SIG: &'static str = "()J";

pub const INPUT_METHOD_MANAGER_CLASS: &'static str = "android/view/inputmethod/InputMethodManager";

pub const IMM_NATIVE_INIT_NAME: &'static str = "nativeInit";

pub const IMM_NATIVE_INIT_SIG: &'static str = "()J";

pub const IMM_NATIVE_HIDE_SOFT_INPUT_NAME: &'static str = "nativeHideSoftInput";

pub const IMM_NATIVE_HIDE_SOFT_INPUT_SIG: &'static str = "(J)V";

pub const IMM_NATIVE_SHOW_SOFT_INPUT_NAME: &'static str = "nativeShowSoftInput";

pub const IMM_NATIVE_SHOW_SOFT_INPUT_SIG: &'static str =
    "(JJLandroid/view/inputmethod/InputConnection;I)Z";

pub const DIALOG_CLASS: &'static str = "android/app/Dialog";

pub const DIALOG_NATIVE_INIT_NAME: &'static str = "nativeInit";

pub const DIALOG_NATIVE_INIT_SIG: &'static str = "()J";

pub const VIEW_CLASS: &'static str = "android/view/View";

pub const MOTION_EVENT_CLASS: &'static str = "android/view/MotionEvent";

pub const KEY_EVENT_CLASS: &'static str = "android/view/KeyEvent";

pub const VIEW_NATIVE_CONSTRUCTOR_NAME: &'static str = "native_constructor";

pub const VIEW_NATIVE_CONSTRUCTOR_SIG: &'static str =
    "(Landroid/content/Context;Landroid/util/AttributeSet;)J";

pub const VIEW_NATIVE_SET_PADDING_NAME: &'static str = "native_setPadding";

pub const VIEW_NATIVE_SET_PADDING_SIG: &'static str = "(JIIII)V";

pub const VIEW_NATIVE_SET_LAYOUT_PARAMS_NAME: &'static str = "native_setLayoutParams";

pub const VIEW_NATIVE_SET_LAYOUT_PARAMS_SIG: &'static str = "(JIIIFIIII)V";

pub const VIEW_NATIVE_REQUEST_LAYOUT_NAME: &'static str = "native_requestLayout";

pub const VIEW_NATIVE_REQUEST_LAYOUT_SIG: &'static str = "(J)V";

pub const VIEW_NATIVE_SET_BACKGROUND_DRAWABLE_NAME: &'static str = "native_setBackgroundDrawable";

pub const VIEW_NATIVE_SET_BACKGROUND_DRAWABLE_SIG: &'static str = "(JJ)V";

pub const VIEW_NATIVE_SET_VISIBILITY_NAME: &'static str = "native_setVisibility";

pub const VIEW_NATIVE_SET_VISIBILITY_SIG: &'static str = "(JIF)V";

pub const VIEW_SET_ON_CLICK_LISTENER_NAME: &'static str = "nativeSetOnClickListener";

pub const VIEW_SET_ON_CLICK_LISTENER_SIG: &'static str = "(J)V";

pub const VIEW_SET_ON_TOUCH_LISTENER_NAME: &'static str = "nativeSetOnTouchListener";

pub const VIEW_SET_ON_TOUCH_LISTENER_SIG: &'static str = "(J)V";

pub const VIEW_SET_ON_LONG_CLICK_LISTENER_NAME: &'static str = "nativeSetOnLongClickListener";

pub const VIEW_SET_ON_LONG_CLICK_LISTENER_SIG: &'static str = "(J)V";

pub const VIEW_SET_BACKGROUND_COLOR_NAME: &'static str = "native_setBackgroundColor";

pub const VIEW_SET_BACKGROUND_COLOR_SIG: &'static str = "(JI)V";

pub const VIEW_NATIVE_SET_FULLSCREEN_NAME: &'static str = "nativeSetFullscreen";

pub const VIEW_NATIVE_SET_FULLSCREEN_SIG: &'static str = "(JZ)V";

pub const VIEW_NATIVE_GET_WINDOW_NAME: &'static str = "native_get_window";

pub const VIEW_NATIVE_GET_WINDOW_SIG: &'static str = "(J)Landroid/view/Window;";

pub const VIEW_NATIVE_DESTRUCTOR_NAME: &'static str = "native_destructor";

pub const VIEW_NATIVE_DESTRUCTOR_SIG: &'static str = "(J)V";

pub const VIEW_GET_WINDOW_VISIBLE_DISPLAY_FRAME_NAME: &'static str = "getWindowVisibleDisplayFrame";

pub const VIEW_GET_WINDOW_VISIBLE_DISPLAY_FRAME_SIG: &'static str = "(Landroid/graphics/Rect;)V";

pub const VIEW_NATIVE_IS_ATTACHED_TO_WINDOW_NAME: &'static str = "nativeIsAttachedToWindow";

pub const VIEW_NATIVE_IS_ATTACHED_TO_WINDOW_SIG: &'static str = "(J)Z";

pub const VIEW_NATIVE_GET_GLOBAL_VISIBLE_RECT_NAME: &'static str = "native_getGlobalVisibleRect";

pub const VIEW_NATIVE_GET_GLOBAL_VISIBLE_RECT_SIG: &'static str = "(JLandroid/graphics/Rect;)Z";

pub const VIEW_NATIVE_REQUEST_FOCUS_NAME: &'static str = "nativeRequestFocus";

pub const VIEW_NATIVE_REQUEST_FOCUS_SIG: &'static str = "(JI)V";

pub const VIEW_NATIVE_LAYOUT_NAME: &'static str = "native_layout";

pub const VIEW_NATIVE_LAYOUT_SIG: &'static str = "(JIIII)V";

pub const VIEW_NATIVE_INVALIDATE_NAME: &'static str = "nativeInvalidate";

pub const VIEW_NATIVE_INVALIDATE_SIG: &'static str = "(J)V";

pub const VIEW_NATIVE_IS_FOCUSED_NAME: &'static str = "nativeIsFocused";

pub const VIEW_NATIVE_IS_FOCUSED_SIG: &'static str = "(J)Z";

pub const VIEW_NATIVE_KEEP_SCREEN_ON_NAME: &'static str = "native_keep_screen_on";

pub const VIEW_NATIVE_KEEP_SCREEN_ON_SIG: &'static str = "(JZ)V";

pub const VIEW_NATIVE_ADD_CLASS_NAME: &'static str = "native_addClass";

pub const VIEW_NATIVE_ADD_CLASS_SIG: &'static str = "(JLjava/lang/String;)V";

pub const VIEW_NATIVE_REMOVE_CLASSES_NAME: &'static str = "native_removeClasses";

pub const VIEW_NATIVE_REMOVE_CLASSES_SIG: &'static str = "(J[Ljava/lang/String;)V";

pub const VIEW_NATIVE_DRAW_BACKGROUND_NAME: &'static str = "native_drawBackground";

pub const VIEW_NATIVE_DRAW_BACKGROUND_SIG: &'static str = "(JJ)V";

pub const VIEW_NATIVE_DRAW_CONTENT_NAME: &'static str = "native_drawContent";

pub const VIEW_NATIVE_DRAW_CONTENT_SIG: &'static str = "(JJ)V";

pub const VIEW_NATIVE_QUEUE_ALLOCATE_NAME: &'static str = "native_queueAllocate";

pub const VIEW_NATIVE_QUEUE_ALLOCATE_SIG: &'static str = "(J)V";

pub const VIEW_NATIVE_MEASURE_NAME: &'static str = "native_measure";

pub const VIEW_NATIVE_MEASURE_SIG: &'static str = "(JII)V";

pub const VIEW_SET_MEASURED_DIMENSION_NAME: &'static str = "setMeasuredDimension";

pub const VIEW_SET_MEASURED_DIMENSION_SIG: &'static str = "(II)V";

pub const VIEW_GET_SUGGESTED_MIN_WIDTH_NAME: &'static str = "getSuggestedMinimumWidth";

pub const VIEW_GET_SUGGESTED_MIN_HEIGHT_NAME: &'static str = "getSuggestedMinimumHeight";

pub const VIEW_GET_SUGGESTED_MIN_SIG: &'static str = "()I";

pub const VIEW_TREE_OBSERVER_CLASS: &'static str = "android/view/ViewTreeObserver";

pub const VIEW_TREE_OBSERVER_SET_HAVE_LISTENERS_NAME: &'static str =
    "native_set_have_global_layout_listeners";

pub const VIEW_TREE_OBSERVER_SET_HAVE_LISTENERS_SIG: &'static str = "(Z)V";

pub const VIEW_GROUP_CLASS: &'static str = "android/view/ViewGroup";

pub const VIEW_GROUP_NATIVE_ADD_VIEW_NAME: &'static str = "native_addView";

pub const VIEW_GROUP_NATIVE_ADD_VIEW_SIG: &'static str =
    "(JJILandroid/view/ViewGroup$LayoutParams;)V";

pub const VIEW_GROUP_NATIVE_REMOVE_VIEW_NAME: &'static str = "native_removeView";

pub const VIEW_GROUP_NATIVE_REMOVE_VIEW_SIG: &'static str = "(JJ)V";

pub const PAINT_CLASS: &'static str = "android/graphics/Paint";

pub const PAINT_NATIVE_CREATE_NAME: &'static str = "native_create";

pub const PAINT_NATIVE_CREATE_SIG: &'static str = "()J";

pub const PAINT_NATIVE_SET_COLOR_NAME: &'static str = "native_set_color";

pub const PAINT_NATIVE_SET_COLOR_SIG: &'static str = "(JI)V";

pub const PAINT_NATIVE_SET_STROKE_WIDTH_NAME: &'static str = "native_set_stroke_width";

pub const PAINT_NATIVE_SET_STROKE_WIDTH_SIG: &'static str = "(JF)V";

pub const PAINT_NATIVE_SET_STYLE_NAME: &'static str = "native_set_style";

pub const PAINT_NATIVE_SET_STYLE_SIG: &'static str = "(JI)V";

pub const PAINT_NATIVE_SET_TEXT_SIZE_NAME: &'static str = "native_set_text_size";

pub const PAINT_NATIVE_SET_TEXT_SIZE_SIG: &'static str = "(JF)V";

pub const PAINT_NATIVE_CLONE_NAME: &'static str = "native_clone";

pub const PAINT_NATIVE_CLONE_SIG: &'static str = "(J)J";

pub const PAINT_NATIVE_RECYCLE_NAME: &'static str = "native_recycle";

pub const PAINT_NATIVE_RECYCLE_SIG: &'static str = "(J)V";

pub const PAINT_NATIVE_GET_COLOR_NAME: &'static str = "native_get_color";

pub const PAINT_NATIVE_GET_COLOR_SIG: &'static str = "(J)I";

pub const PAINT_NATIVE_SET_ALPHA_NAME: &'static str = "native_set_alpha";

pub const PAINT_NATIVE_SET_ALPHA_SIG: &'static str = "(JI)V";

pub const PAINT_NATIVE_GET_ALPHA_NAME: &'static str = "native_get_alpha";

pub const PAINT_NATIVE_GET_ALPHA_SIG: &'static str = "(J)I";

pub const PAINT_NATIVE_GET_STYLE_NAME: &'static str = "native_get_style";

pub const PAINT_NATIVE_GET_STYLE_SIG: &'static str = "(J)I";

pub const PAINT_NATIVE_GET_STROKE_WIDTH_NAME: &'static str = "native_get_stroke_width";

pub const PAINT_NATIVE_GET_STROKE_WIDTH_SIG: &'static str = "(J)F";

pub const PAINT_NATIVE_SET_STROKE_CAP_NAME: &'static str = "native_set_stroke_cap";

pub const PAINT_NATIVE_SET_STROKE_CAP_SIG: &'static str = "(JI)V";

pub const PAINT_NATIVE_GET_STROKE_CAP_NAME: &'static str = "native_get_stroke_cap";

pub const PAINT_NATIVE_GET_STROKE_CAP_SIG: &'static str = "(J)I";

pub const PAINT_NATIVE_SET_STROKE_JOIN_NAME: &'static str = "native_set_stroke_join";

pub const PAINT_NATIVE_SET_STROKE_JOIN_SIG: &'static str = "(JI)V";

pub const PAINT_NATIVE_GET_STROKE_JOIN_NAME: &'static str = "native_get_stroke_join";

pub const PAINT_NATIVE_GET_STROKE_JOIN_SIG: &'static str = "(J)I";

pub const PAINT_NATIVE_GET_TEXT_SIZE_NAME: &'static str = "native_get_text_size";

pub const PAINT_NATIVE_GET_TEXT_SIZE_SIG: &'static str = "(J)F";

pub const PAINT_NATIVE_SET_COLOR_FILTER_NAME: &'static str = "native_set_color_filter";

pub const PAINT_NATIVE_SET_COLOR_FILTER_SIG: &'static str = "(JII)V";

pub const PAINT_NATIVE_SET_TEXT_ALIGN_NAME: &'static str = "native_set_text_align";

pub const PAINT_NATIVE_SET_TEXT_ALIGN_SIG: &'static str = "(JI)V";

pub const MATRIX_CLASS: &'static str = "android/graphics/Matrix";

pub const MATRIX_NATIVE_CREATE_NAME: &'static str = "native_create";

pub const MATRIX_NATIVE_CREATE_SIG: &'static str = "(J)J";

pub const MATRIX_FINALIZER_NAME: &'static str = "finalizer";

pub const MATRIX_FINALIZER_SIG: &'static str = "(J)V";

pub const PATH_CLASS: &'static str = "android/graphics/Path";

pub const PATH_NATIVE_CREATE_BUILDER_NAME: &'static str = "native_create_builder";

pub const PATH_NATIVE_CREATE_BUILDER_SIG: &'static str = "(JJ)J";

pub const PATH_NATIVE_MOVE_TO_NAME: &'static str = "native_move_to";

pub const PATH_NATIVE_MOVE_TO_SIG: &'static str = "(JFF)V";

pub const PATH_NATIVE_LINE_TO_NAME: &'static str = "native_line_to";

pub const PATH_NATIVE_LINE_TO_SIG: &'static str = "(JFF)V";

pub const PATH_NATIVE_QUAD_TO_NAME: &'static str = "native_quad_to";

pub const PATH_NATIVE_QUAD_TO_SIG: &'static str = "(JFFFF)V";

pub const PATH_NATIVE_CUBIC_TO_NAME: &'static str = "native_cubic_to";

pub const PATH_NATIVE_CUBIC_TO_SIG: &'static str = "(JFFFFFF)V";

pub const PATH_NATIVE_CLOSE_NAME: &'static str = "native_close";

pub const PATH_NATIVE_CLOSE_SIG: &'static str = "(J)V";

pub const PATH_NATIVE_CREATE_PATH_NAME: &'static str = "native_create_path";

pub const PATH_NATIVE_CREATE_PATH_SIG: &'static str = "(J)J";

pub const PATH_NATIVE_REF_PATH_NAME: &'static str = "native_ref_path";

pub const PATH_NATIVE_REF_PATH_SIG: &'static str = "(J)J";

pub const PATH_NATIVE_RESET_NAME: &'static str = "native_reset";

pub const PATH_NATIVE_RESET_SIG: &'static str = "(JJ)V";

pub const CANVAS_CLASS: &'static str = "android/graphics/Canvas";

pub const CANVAS_N_DRAW_COLOR_NAME: &'static str = "nDrawColor";

pub const CANVAS_N_DRAW_COLOR_SIG: &'static str = "(JI)V";

pub const CANVAS_N_DRAW_RECT_NAME: &'static str = "nDrawRect";

pub const CANVAS_N_DRAW_RECT_SIG: &'static str = "(JFFFFJ)V";

pub const CANVAS_N_DRAW_CIRCLE_NAME: &'static str = "nDrawCircle";

pub const CANVAS_N_DRAW_CIRCLE_SIG: &'static str = "(JFFFJ)V";

pub const CANVAS_N_DRAW_PATH_NAME: &'static str = "nDrawPath";

pub const CANVAS_N_DRAW_PATH_SIG: &'static str = "(JJJ)V";

pub const TEXT_VIEW_CLASS: &'static str = "android/widget/TextView";

pub const TEXT_VIEW_NATIVE_SET_TEXT_NAME: &'static str = "native_setText";

pub const TEXT_VIEW_NATIVE_SET_TEXT_SIG: &'static str = "(Ljava/lang/String;)V";

pub const TEXT_VIEW_NATIVE_SET_TEXT_COLOR_NAME: &'static str = "native_setTextColor";

pub const TEXT_VIEW_NATIVE_SET_TEXT_COLOR_SIG: &'static str = "(I)V";

pub const TEXT_VIEW_SET_TEXT_SIZE_NAME: &'static str = "setTextSize";

pub const TEXT_VIEW_SET_TEXT_SIZE_SIG: &'static str = "(F)V";

pub const TEXT_VIEW_NATIVE_SET_MARKUP_NAME: &'static str = "native_set_markup";

pub const TEXT_VIEW_NATIVE_SET_MARKUP_SIG: &'static str = "(I)V";

pub const TEXT_VIEW_NATIVE_SET_COMPOUND_DRAWABLES_NAME: &'static str =
    "native_setCompoundDrawables";

pub const TEXT_VIEW_NATIVE_SET_COMPOUND_DRAWABLES_SIG: &'static str = "(JJJJJ)V";

pub const VIEW_WIDGET_FIELD_NAME: &'static str = "widget";

pub const VIEW_WIDGET_FIELD_SIG: &'static str = "J";

pub const ARRAY_LIST_SIG: &'static str = "Ljava/util/ArrayList;";

pub const IMAGE_VIEW_CLASS: &'static str = "android/widget/ImageView";

pub const IMAGE_VIEW_SET_SCALE_TYPE_NAME: &'static str = "native_setScaleType";

pub const IMAGE_VIEW_SET_SCALE_TYPE_SIG: &'static str = "(JI)V";

pub const IMAGE_VIEW_SET_DRAWABLE_NAME: &'static str = "native_setDrawable";

pub const IMAGE_VIEW_SET_DRAWABLE_SIG: &'static str = "(JJ)V";

pub const IMAGE_BUTTON_CLASS: &'static str = "android/widget/ImageButton";

pub const IMAGE_BUTTON_SET_ON_CLICK_LISTENER_NAME: &'static str = "nativeSetOnClickListener";

pub const IMAGE_BUTTON_SET_ON_CLICK_LISTENER_SIG: &'static str = "(J)V";

pub const SURFACE_VIEW_CLASS: &'static str = "android/view/SurfaceView";

pub const BUTTON_CLASS: &'static str = "android/widget/Button";

pub const EDIT_TEXT_CLASS: &'static str = "android/widget/EditText";

pub const PROGRESS_BAR_CLASS: &'static str = "android/widget/ProgressBar";

pub const CHECK_BOX_CLASS: &'static str = "android/widget/CheckBox";

pub const RADIO_BUTTON_CLASS: &'static str = "android/widget/RadioButton";

pub const SEEK_BAR_CLASS: &'static str = "android/widget/SeekBar";

pub const SPINNER_CLASS: &'static str = "android/widget/Spinner";

pub const SCROLL_VIEW_CLASS: &'static str = "android/widget/ScrollView";

pub const WEB_VIEW_CLASS: &'static str = "android/webkit/WebView";

pub const WEB_VIEW_NATIVE_LOAD_URL_NAME: &'static str = "native_loadUrl";

pub const WEB_VIEW_NATIVE_LOAD_URL_SIG: &'static str = "(JLjava/lang/String;)V";

pub const WEB_VIEW_NATIVE_LOAD_DATA_WITH_BASE_URL_NAME: &'static str = "native_loadDataWithBaseURL";

pub const WEB_VIEW_NATIVE_LOAD_DATA_WITH_BASE_URL_SIG: &'static str =
    "(JLjava/lang/String;Ljava/lang/String;Ljava/lang/String;Ljava/lang/String;)V";

pub const WEB_VIEW_NATIVE_CAN_GO_BACK_NAME: &'static str = "native_canGoBack";

pub const WEB_VIEW_NATIVE_CAN_GO_BACK_SIG: &'static str = "(J)Z";

pub const WEB_VIEW_NATIVE_GO_BACK_NAME: &'static str = "native_goBack";

pub const WEB_VIEW_NATIVE_GO_BACK_SIG: &'static str = "(J)V";

pub const ACTIVITY_MANAGER_CLASS: &'static str = "android/app/ActivityManager";

pub const AM_NATIVE_FILL_MEMORY_INFO_NAME: &'static str = "native_fillMemoryInfo";

pub const AM_NATIVE_FILL_MEMORY_INFO_SIG: &'static str =
    "(Landroid/app/ActivityManager$MemoryInfo;)V";

pub const AM_NATIVE_GET_MEMORY_CLASS_NAME: &'static str = "native_getMemoryClass";

pub const AM_NATIVE_GET_MEMORY_CLASS_SIG: &'static str = "()I";

pub const AM_NATIVE_GET_LARGE_MEMORY_CLASS_NAME: &'static str = "native_getLargeMemoryClass";

pub const AM_NATIVE_GET_LARGE_MEMORY_CLASS_SIG: &'static str = "()I";

pub const AM_NATIVE_IS_LOW_RAM_DEVICE_NAME: &'static str = "native_isLowRamDevice";

pub const AM_NATIVE_IS_LOW_RAM_DEVICE_SIG: &'static str = "()Z";

pub const WEB_SETTINGS_CLASS: &'static str = "android/webkit/WebSettings";

pub const WEB_SETTINGS_NATIVE_SET_USER_AGENT_STRING_NAME: &'static str =
    "native_setUserAgentString";

pub const WEB_SETTINGS_NATIVE_SET_USER_AGENT_STRING_SIG: &'static str = "(Ljava/lang/String;)V";

pub const WEB_SETTINGS_NATIVE_GET_USER_AGENT_STRING_NAME: &'static str =
    "native_getUserAgentString";

pub const WEB_SETTINGS_NATIVE_GET_USER_AGENT_STRING_SIG: &'static str = "()Ljava/lang/String;";

pub const WEB_VIEW_NATIVE_EVALUATE_JAVASCRIPT_NAME: &'static str = "native_evaluateJavascript";

pub const WEB_VIEW_NATIVE_EVALUATE_JAVASCRIPT_SIG: &'static str =
    "(JLjava/lang/String;Landroid/webkit/ValueCallback;)V";

pub const WEB_VIEW_NATIVE_ADD_JAVASCRIPT_INTERFACE_NAME: &'static str =
    "native_addJavascriptInterface";

pub const WEB_VIEW_NATIVE_ADD_JAVASCRIPT_INTERFACE_SIG: &'static str =
    "(JLjava/lang/Object;Ljava/lang/String;)V";

pub const COOKIE_MANAGER_CLASS: &'static str = "android/webkit/CookieManager";

pub const CM_NATIVE_GET_COOKIE_NAME: &'static str = "native_getCookie";

pub const CM_NATIVE_GET_COOKIE_SIG: &'static str = "(Ljava/lang/String;)Ljava/lang/String;";

pub const CM_NATIVE_SET_COOKIE_NAME: &'static str = "native_setCookie";

pub const CM_NATIVE_SET_COOKIE_SIG: &'static str = "(Ljava/lang/String;Ljava/lang/String;)V";

pub const CM_NATIVE_SET_COOKIE_CB_SIG: &'static str =
    "(Ljava/lang/String;Ljava/lang/String;Landroid/webkit/ValueCallback;)V";

pub const CM_NATIVE_REMOVE_ALL_COOKIES_NAME: &'static str = "native_removeAllCookies";

pub const CM_NATIVE_REMOVE_ALL_COOKIES_SIG: &'static str = "(Landroid/webkit/ValueCallback;)V";

pub const CM_NATIVE_REMOVE_SESSION_COOKIES_NAME: &'static str = "native_removeSessionCookies";

pub const CM_NATIVE_REMOVE_SESSION_COOKIES_SIG: &'static str = "(Landroid/webkit/ValueCallback;)V";

pub const CM_NATIVE_FLUSH_NAME: &'static str = "native_flush";

pub const CM_NATIVE_FLUSH_SIG: &'static str = "()V";

pub const JAVASCRIPT_INTERFACE_CLASS: &'static str = "android/webkit/JavascriptInterface";

pub const WIDGET_NATIVE_SET_TEXT_NAME: &'static str = "native_setText";

pub const WIDGET_NATIVE_SET_TEXT_SIG: &'static str = "(JLjava/lang/String;)V";

pub const RADIO_BUTTON_SET_TEXT_NAME: &'static str = "setText";

pub const RADIO_BUTTON_SET_TEXT_SIG: &'static str = "(Ljava/lang/CharSequence;)V";

pub const PROGRESS_BAR_SET_INDETERMINATE_NAME: &'static str = "native_setIndeterminate";

pub const PROGRESS_BAR_SET_INDETERMINATE_SIG: &'static str = "(Z)V";

pub const PROGRESS_NATIVE_SET_PROGRESS_NAME: &'static str = "native_setProgress";

pub const PROGRESS_NATIVE_SET_PROGRESS_SIG: &'static str = "(JF)V";

pub const SEEK_BAR_SET_MAX_NAME: &'static str = "native_setMax";

pub const SEEK_BAR_SET_MAX_SIG: &'static str = "(JI)V";

pub const BUTTON_SET_COMPOUND_DRAWABLES_NAME: &'static str = "native_setCompoundDrawables";

pub const BUTTON_SET_COMPOUND_DRAWABLES_SIG: &'static str = "(JJ)V";

pub const SPINNER_SET_ADAPTER_NAME: &'static str = "native_setAdapter";

pub const SPINNER_SET_ADAPTER_SIG: &'static str = "(JLandroid/widget/SpinnerAdapter;)V";

pub const EDIT_TEXT_ADD_TEXT_CHANGED_LISTENER_NAME: &'static str = "native_addTextChangedListener";

pub const EDIT_TEXT_REMOVE_TEXT_CHANGED_LISTENER_NAME: &'static str =
    "native_removeTextChangedListener";

pub const EDIT_TEXT_TEXT_CHANGED_LISTENER_SIG: &'static str = "(JLandroid/text/TextWatcher;)V";

pub const EDIT_TEXT_SET_ON_EDITOR_ACTION_LISTENER_NAME: &'static str =
    "native_setOnEditorActionListener";

pub const EDIT_TEXT_SET_ON_EDITOR_ACTION_LISTENER_SIG: &'static str =
    "(JLandroid/widget/TextView$OnEditorActionListener;)V";

pub const EDIT_TEXT_GET_TEXT_NAME: &'static str = "native_getText";

pub const EDIT_TEXT_GET_TEXT_SIG: &'static str = "(J)Ljava/lang/String;";

pub const DRAWABLE_CLASS: &'static str = "android/graphics/drawable/Drawable";

pub const DRAWABLE_NATIVE_CONSTRUCTOR_NAME: &'static str = "native_constructor";

pub const DRAWABLE_NATIVE_CONSTRUCTOR_SIG: &'static str = "()J";

pub const DRAWABLE_NATIVE_UNREF_NAME: &'static str = "native_unref";

pub const DRAWABLE_NATIVE_UNREF_SIG: &'static str = "(J)V";

pub const DRAWABLE_NATIVE_INVALIDATE_NAME: &'static str = "native_invalidate";

pub const DRAWABLE_NATIVE_INVALIDATE_SIG: &'static str = "(J)V";

pub const DRAWABLE_NATIVE_REF_NAME: &'static str = "native_ref";

pub const DRAWABLE_NATIVE_REF_SIG: &'static str = "(J)V";

pub const DRAWABLE_NATIVE_DRAW_NAME: &'static str = "native_draw";

pub const DRAWABLE_NATIVE_DRAW_SIG: &'static str = "(JJII)V";

pub const DRAWABLE_PAINTABLE_FROM_PATH_NAME: &'static str = "native_paintable_from_path";

pub const DRAWABLE_PAINTABLE_FROM_PATH_SIG: &'static str = "(Ljava/lang/String;)J";

pub const DRAWABLE_CONTAINER_CLASS: &'static str = "android/graphics/drawable/DrawableContainer";

pub const DRAWABLE_CONTAINER_SELECT_CHILD_NAME: &'static str = "native_selectChild";

pub const DRAWABLE_CONTAINER_SELECT_CHILD_SIG: &'static str = "(JJ)V";

pub const NINE_PATCH_DRAWABLE_CLASS: &'static str = "android/graphics/drawable/NinePatchDrawable";

pub const NINE_PATCH_CREATE_NAME: &'static str = "nativeCreate";

pub const NINE_PATCH_CREATE_FROM_PATH_SIG: &'static str = "(Ljava/lang/String;)J";

pub const NINE_PATCH_CREATE_FROM_CHUNK_SIG: &'static str = "([BJ)J";

pub const NINE_PATCH_SET_TINT_NAME: &'static str = "nativeSetTint";

pub const NINE_PATCH_SET_TINT_SIG: &'static str = "(JI)V";

pub const BITMAP_FACTORY_CLASS: &'static str = "android/graphics/BitmapFactory";

pub const BITMAP_CLASS: &'static str = "android/graphics/Bitmap";

pub const BITMAP_FACTORY_DECODE_STREAM_NAME: &'static str = "nativeDecodeStream";

pub const BITMAP_FACTORY_DECODE_STREAM_SIG: &'static str =
    "(Ljava/io/InputStream;[BLandroid/graphics/Rect;Landroid/graphics/BitmapFactory$Options;)J";

pub const BITMAP_GET_WIDTH_NAME: &'static str = "native_get_width";

pub const BITMAP_GET_WIDTH_SIG: &'static str = "(J)I";

pub const BITMAP_GET_HEIGHT_NAME: &'static str = "native_get_height";

pub const BITMAP_GET_HEIGHT_SIG: &'static str = "(J)I";

pub const BITMAP_RECYCLE_NAME: &'static str = "native_recycle";

pub const BITMAP_RECYCLE_SIG: &'static str = "(JJ)V";

pub const BITMAP_CREATE_TEXTURE_NAME: &'static str = "native_create_texture";

pub const BITMAP_CREATE_TEXTURE_SIG: &'static str = "(JIIII)J";

pub const BITMAP_CREATE_SNAPSHOT_NAME: &'static str = "native_create_snapshot";

pub const BITMAP_CREATE_SNAPSHOT_SIG: &'static str = "(J)J";

pub const BITMAP_REF_TEXTURE_NAME: &'static str = "native_ref_texture";

pub const BITMAP_REF_TEXTURE_SIG: &'static str = "(J)J";

pub const WINDOW_CLASS: &'static str = "android/view/Window";

pub const WINDOW_SET_JOBJECT_NAME: &'static str = "set_jobject";

pub const WINDOW_SET_JOBJECT_SIG: &'static str = "(JLandroid/view/Window;)V";

pub const WINDOW_SET_TITLE_NAME: &'static str = "set_title";

pub const WINDOW_SET_TITLE_SIG: &'static str = "(JLjava/lang/String;)V";

pub const WINDOW_SET_LAYOUT_NAME: &'static str = "set_layout";

pub const WINDOW_SET_LAYOUT_SIG: &'static str = "(JII)V";

pub const WINDOW_SET_WIDGET_AS_ROOT_NAME: &'static str = "set_widget_as_root";

pub const WINDOW_SET_WIDGET_AS_ROOT_SIG: &'static str = "(JJ)V";

pub const WINDOW_REMOVE_GTK_BACKGROUND_NAME: &'static str = "remove_gtk_background";

pub const WINDOW_REMOVE_GTK_BACKGROUND_SIG: &'static str = "(J)V";

pub const ACTIVITY_NATIVE_START_ACTIVITY_NAME: &'static str = "nativeStartActivity";

pub const ACTIVITY_NATIVE_START_ACTIVITY_SIG: &'static str = "(Landroid/app/Activity;)V";

pub const ACTIVITY_NATIVE_FINISH_NAME: &'static str = "nativeFinish";

pub const ACTIVITY_NATIVE_FINISH_SIG: &'static str = "(J)V";

pub const ACTIVITY_NATIVE_RESUME_ACTIVITY_NAME: &'static str = "nativeResumeActivity";

pub const ACTIVITY_NATIVE_RESUME_ACTIVITY_SIG: &'static str =
    "(Ljava/lang/Class;Landroid/content/Intent;)Z";

pub const ACTIVITY_IS_IN_MULTI_WINDOW_MODE_NAME: &'static str = "isInMultiWindowMode";

pub const ACTIVITY_IS_IN_MULTI_WINDOW_MODE_SIG: &'static str = "()Z";

pub const ACTIVITY_IS_TASK_ROOT_NAME: &'static str = "isTaskRoot";

pub const ACTIVITY_IS_TASK_ROOT_SIG: &'static str = "()Z";

pub const CONTEXT_CLASS: &'static str = "android/content/Context";

pub const APPLICATION_CLASS: &'static str = "android/app/Application";

pub const LOOPER_CLASS: &'static str = "android/os/Looper";

pub const ACTIVITY_CLASS: &'static str = "android/app/Activity";

pub const RUNTIME_CLASS: &'static str = "java/lang/Runtime";

pub const NATIVE_LOAD_NAME: &'static str = "nativeLoad";

pub const NATIVE_LOAD_SIG: &'static str =
    "(Ljava/lang/String;Ljava/lang/ClassLoader;Ljava/lang/Class;)Ljava/lang/String;";

pub const MOTION_EVENT_OBTAIN_NAME: &'static str = "obtain";

pub const MOTION_EVENT_OBTAIN_SIG: &'static str = "(JJIFFI)Landroid/view/MotionEvent;";

pub const VIEW_DISPATCH_TOUCH_EVENT_NAME: &'static str = "dispatchTouchEvent";

pub const VIEW_DISPATCH_TOUCH_EVENT_SIG: &'static str = "(Landroid/view/MotionEvent;)Z";

pub const MOTION_EVENT_RECYCLE_NAME: &'static str = "recycle";

pub const MOTION_EVENT_RECYCLE_SIG: &'static str = "()V";

pub const KEY_EVENT_CONSTRUCTOR_SIG: &'static str = "(JJIIII)V";

pub const VIEW_DISPATCH_KEY_EVENT_NAME: &'static str = "dispatchKeyEvent";

pub const VIEW_DISPATCH_KEY_EVENT_SIG: &'static str = "(Landroid/view/KeyEvent;)Z";

pub const KEY_EVENT_UNICODE_VALUE_FIELD: &'static str = "unicodeValue";

pub const MEMORY_INFO_AVAIL_MEM_FIELD: &'static str = "availMem";

pub const MEMORY_INFO_TOTAL_MEM_FIELD: &'static str = "totalMem";

pub const MEMORY_INFO_THRESHOLD_FIELD: &'static str = "threshold";

pub const MEMORY_INFO_LOW_MEMORY_FIELD: &'static str = "lowMemory";

pub const MEMORY_INFO_HIDDEN_THRESHOLD_FIELD: &'static str = "hiddenAppThreshold";

pub const MEMORY_INFO_SECONDARY_THRESHOLD_FIELD: &'static str = "secondaryServerThreshold";

pub const MEMORY_INFO_VISIBLE_THRESHOLD_FIELD: &'static str = "visibleAppThreshold";

pub const MEMORY_INFO_FOREGROUND_THRESHOLD_FIELD: &'static str = "foregroundAppThreshold";

pub const ACTIVITY_FINISHING_FIELD_NAME: &'static str = "finishing";

pub const CONTENT_PROVIDER_CLASS: &'static str = "android/content/ContentProvider";

pub const ECLIPSE_BRIDGE_PROBE_CLASS: &'static str = "android/webkit/EclipseBridgeProbe";

pub const WEB_VIEW_INTERNAL_LOAD_CHANGED_NAME: &'static str = "internalLoadChanged";

} // verus!
